use views_codegen::digest::digest_stream;

#[test]
fn digest_stream_concatenates_in_declaration_order() {
    let digests = vec![vec![1u8, 2], vec![3], vec![], vec![4, 5, 6]];
    assert_eq!(digest_stream(&digests), vec![1u8, 2, 3, 4, 5, 6]);
}

#[test]
fn digest_stream_of_no_fields_is_empty() {
    let digests: Vec<Vec<u8>> = vec![];
    assert_eq!(digest_stream(&digests), Vec::<u8>::new());
}

#[test]
fn digest_stream_is_order_sensitive_for_fixed_width_digests() {
    let forward = vec![vec![1u8, 2], vec![3, 4]];
    let permuted = vec![vec![3u8, 4], vec![1, 2]];
    assert_ne!(digest_stream(&forward), digest_stream(&permuted));
}
