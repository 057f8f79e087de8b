use upload_count::multipart::{
    field_byte_len, file_length, request_is_clean, UploadError, UploadField, UploadRequest,
    UploadResult,
};

fn field(name: &str, chunks: Vec<Vec<u8>>, truncated: bool) -> UploadField {
    UploadField { name: name.to_string(), chunks, truncated }
}

fn request(fields: Vec<UploadField>) -> UploadRequest {
    UploadRequest { fields, truncated: false }
}

#[test]
fn empty_request_succeeds_with_zero() {
    let req = request(vec![]);
    assert!(request_is_clean(&req));
    assert_eq!(file_length(Some(&req)), UploadResult::Success(0));
}

#[test]
fn missing_payload_fails_fast() {
    assert_eq!(
        file_length(None),
        UploadResult::Failure(UploadError::PreconditionError)
    );
}

#[test]
fn counts_across_fields_without_reset() {
    let req = request(vec![
        field("file_to_upload", vec![vec![1, 2, 3], vec![4, 5]], false),
        field("note", vec![vec![6]], false),
    ]);
    assert_eq!(file_length(Some(&req)), UploadResult::Success(6));
}

#[test]
fn chunking_is_transparent() {
    let payload: Vec<u8> = (0u8..=99).collect();
    let one_chunk = request(vec![field("file_to_upload", vec![payload.clone()], false)]);
    let many_chunks = request(vec![field(
        "file_to_upload",
        payload.chunks(7).map(|c| c.to_vec()).collect(),
        false,
    )]);
    assert_eq!(file_length(Some(&one_chunk)), UploadResult::Success(100));
    assert_eq!(
        file_length(Some(&one_chunk)),
        file_length(Some(&many_chunks))
    );
}

#[test]
fn names_and_order_do_not_matter() {
    let a = request(vec![
        field("alpha", vec![vec![1, 2], vec![3]], false),
        field("beta", vec![vec![4, 5, 6, 7]], false),
    ]);
    let b = request(vec![
        field("gamma", vec![vec![4, 5, 6, 7]], false),
        field("delta", vec![vec![1, 2], vec![3]], false),
    ]);
    assert_eq!(file_length(Some(&a)), file_length(Some(&b)));
    assert_eq!(file_length(Some(&a)), UploadResult::Success(7));
}

#[test]
fn count_equals_concatenated_length() {
    let payload: Vec<u8> = (0u8..=255).cycle().take(977).collect();
    for split in [1usize, 2, 3, 5, 64, 100, 976, 977] {
        let req = request(vec![field(
            "file_to_upload",
            payload.chunks(split).map(|c| c.to_vec()).collect(),
            false,
        )]);
        let flat: Vec<u8> = req
            .fields
            .iter()
            .flat_map(|f| f.chunks.iter().flatten().copied())
            .collect();
        assert_eq!(file_length(Some(&req)), UploadResult::Success(flat.len()));
    }
}

#[test]
fn truncated_field_fails_whole_operation() {
    let req = request(vec![
        field("file_to_upload", vec![vec![1, 2, 3]], false),
        field("cut_off", vec![vec![4, 5]], true),
    ]);
    assert!(!request_is_clean(&req));
    assert_eq!(
        file_length(Some(&req)),
        UploadResult::Failure(UploadError::TransportError)
    );
}

#[test]
fn truncated_field_sequence_fails_whole_operation() {
    let req = UploadRequest {
        fields: vec![field("file_to_upload", vec![vec![1, 2, 3]], false)],
        truncated: true,
    };
    assert_eq!(
        file_length(Some(&req)),
        UploadResult::Failure(UploadError::TransportError)
    );
}

#[test]
fn field_byte_len_sums_its_chunks() {
    let f = field("file_to_upload", vec![vec![0; 10], vec![0; 32], vec![]], false);
    assert_eq!(field_byte_len(&f), 42);
}
