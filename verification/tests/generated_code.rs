use views_codegen::schema::FieldDecl;
use views_codegen::schema::GenericParam;
use views_codegen::schema::StructDecl;
use views_codegen::schema::TypeShape;
use views_codegen::container_code::generate_save_delete_view_code;
use views_codegen::hash_code::generate_crypto_hash_code;
use views_codegen::hash_code::generate_hash_view_code;
use views_codegen::view_code::generate_view_code;

fn test_view_decl() -> StructDecl {
    StructDecl {
        name: "TestView".to_string(),
        generics: vec![GenericParam::TypeParam("C".to_string())],
        fields: vec![
            FieldDecl {
                name: Some("register".to_string()),
                ty: TypeShape::Path(vec!["RegisterView".to_string()]),
            },
            FieldDecl {
                name: Some("collection".to_string()),
                ty: TypeShape::Path(vec!["CollectionView".to_string()]),
            },
        ],
    }
}

fn push_header(expected: &mut String, trait_path: &str) {
    expected.push_str("#[async_trait::async_trait]\n");
    expected.push_str("impl<C> ");
    expected.push_str(trait_path);
    expected.push_str("<C> for TestView<C>\n");
    expected.push_str("where\n");
    expected.push_str("    C: Context + Send + Sync + Clone + 'static,\n");
    expected.push_str("    linera_views::views::ViewError: From<C::Error>,\n");
    expected.push_str("{\n");
}

#[test]
fn test_generate_view_code() {
    let output = generate_view_code(&test_view_decl()).unwrap();

    let mut expected = String::new();
    push_header(&mut expected, "linera_views::views::View");
    expected.push_str("    fn context(&self) -> &C {\n");
    expected.push_str("        self.register.context()\n");
    expected.push_str("    }\n\n");
    expected.push_str(
        "    async fn load(context: C) -> Result<Self, linera_views::views::ViewError> {\n",
    );
    expected.push_str("        let index = 0;\n");
    expected.push_str("        let base_key = context.derive_key(&index)?;\n");
    expected.push_str(
        "        let register = RegisterView::load(context.clone_with_base_key(base_key)).await?;\n",
    );
    expected.push_str("        let index = 1;\n");
    expected.push_str("        let base_key = context.derive_key(&index)?;\n");
    expected.push_str(
        "        let collection = CollectionView::load(context.clone_with_base_key(base_key)).await?;\n",
    );
    expected.push_str("        Ok(Self { register, collection })\n");
    expected.push_str("    }\n\n");
    expected.push_str("    fn rollback(&mut self) {\n");
    expected.push_str("        self.register.rollback();\n");
    expected.push_str("        self.collection.rollback();\n");
    expected.push_str("    }\n\n");
    expected.push_str(
        "    fn flush(&mut self, batch: &mut linera_views::common::Batch) -> Result<(), linera_views::views::ViewError> {\n",
    );
    expected.push_str("        self.register.flush(batch)?;\n");
    expected.push_str("        self.collection.flush(batch)?;\n");
    expected.push_str("        Ok(())\n");
    expected.push_str("    }\n\n");
    expected.push_str("    fn delete(self, batch: &mut linera_views::common::Batch) {\n");
    expected.push_str("        self.register.delete(batch);\n");
    expected.push_str("        self.collection.delete(batch);\n");
    expected.push_str("    }\n\n");
    expected.push_str("    fn clear(&mut self) {\n");
    expected.push_str("        self.register.clear();\n");
    expected.push_str("        self.collection.clear();\n");
    expected.push_str("    }\n");
    expected.push_str("}\n");

    assert_eq!(output, expected);
}

#[test]
fn test_generate_hash_view_code() {
    let output = generate_hash_view_code(&test_view_decl()).unwrap();

    let mut expected = String::new();
    push_header(&mut expected, "linera_views::views::HashableView");
    expected.push_str("    type Hasher = linera_views::sha2::Sha512;\n\n");
    expected.push_str(
        "    async fn hash(&mut self) -> Result<<Self::Hasher as linera_views::views::Hasher>::Output, linera_views::views::ViewError> {\n",
    );
    expected.push_str("        use linera_views::views::{Hasher, HashableView};\n");
    expected.push_str("        use std::io::Write;\n");
    expected.push_str("        let mut hasher = Self::Hasher::default();\n");
    expected.push_str("        hasher.write_all(self.register.hash().await?.as_ref())?;\n");
    expected.push_str("        hasher.write_all(self.collection.hash().await?.as_ref())?;\n");
    expected.push_str("        Ok(hasher.finalize())\n");
    expected.push_str("    }\n");
    expected.push_str("}\n");

    assert_eq!(output, expected);
}

#[test]
fn test_generate_save_delete_view_code() {
    let output = generate_save_delete_view_code(&test_view_decl()).unwrap();

    let mut expected = String::new();
    push_header(&mut expected, "linera_views::views::ContainerView");
    expected.push_str(
        "    async fn save(&mut self) -> Result<(), linera_views::views::ViewError> {\n",
    );
    expected.push_str("        use linera_views::common::Batch;\n");
    expected.push_str("        let mut batch = Batch::default();\n");
    expected.push_str("        self.register.flush(&mut batch)?;\n");
    expected.push_str("        self.collection.flush(&mut batch)?;\n");
    expected.push_str("        self.context().write_batch(batch).await?;\n");
    expected.push_str("        Ok(())\n");
    expected.push_str("    }\n\n");
    expected.push_str(
        "    async fn write_delete(self) -> Result<(), linera_views::views::ViewError> {\n",
    );
    expected.push_str("        use linera_views::common::Batch;\n");
    expected.push_str("        let context = self.context().clone();\n");
    expected.push_str("        let batch = Batch::build(move |batch| {\n");
    expected.push_str("            Box::pin(async move {\n");
    expected.push_str("                self.register.delete(batch);\n");
    expected.push_str("                self.collection.delete(batch);\n");
    expected.push_str("                Ok(())\n");
    expected.push_str("            })\n");
    expected.push_str("        })\n");
    expected.push_str("        .await?;\n");
    expected.push_str("        context.write_batch(batch).await?;\n");
    expected.push_str("        Ok(())\n");
    expected.push_str("    }\n");
    expected.push_str("}\n");

    assert_eq!(output, expected);
}

#[test]
fn test_generate_crypto_hash_code() {
    let output = generate_crypto_hash_code(&test_view_decl()).unwrap();

    let mut expected = String::new();
    push_header(&mut expected, "linera_views::views::HashableContainerView");
    expected.push_str(
        "    async fn crypto_hash(&mut self) -> Result<linera_base::crypto::CryptoHash, linera_views::views::ViewError> {\n",
    );
    expected.push_str("        use linera_views::generic_array::GenericArray;\n");
    expected.push_str("        use linera_views::common::Batch;\n");
    expected.push_str("        use linera_base::crypto::{BcsHashable, CryptoHash};\n");
    expected.push_str("        use linera_views::views::HashableView;\n");
    expected.push_str("        use serde::{Serialize, Deserialize};\n");
    expected.push_str("        use linera_views::sha2::{Sha512, Digest};\n");
    expected.push_str("        #[derive(Serialize, Deserialize)]\n");
    expected.push_str(
        "        struct TestViewHash(GenericArray<u8, <Sha512 as Digest>::OutputSize>);\n",
    );
    expected.push_str("        impl BcsHashable for TestViewHash {}\n");
    expected.push_str("        let hash = self.hash().await?;\n");
    expected.push_str("        Ok(CryptoHash::new(&TestViewHash(hash)))\n");
    expected.push_str("    }\n");
    expected.push_str("}\n");

    assert_eq!(output, expected);
}

#[test]
fn two_field_aggregate_loads_and_flushes_in_declaration_order() {
    let view = generate_view_code(&test_view_decl()).unwrap();

    let key_zero = view.find("let index = 0;").unwrap();
    let register_load = view.find("let register = RegisterView::load").unwrap();
    let key_one = view.find("let index = 1;").unwrap();
    let collection_load = view.find("let collection = CollectionView::load").unwrap();
    let assembled = view.find("Ok(Self { register, collection })").unwrap();
    assert!(key_zero < register_load);
    assert!(register_load < key_one);
    assert!(key_one < collection_load);
    assert!(collection_load < assembled);

    let register_flush = view.find("self.register.flush(batch)?;").unwrap();
    let collection_flush = view.find("self.collection.flush(batch)?;").unwrap();
    assert!(register_flush < collection_flush);
}
