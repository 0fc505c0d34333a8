use svc_texture::storage::{
    assemble_upload, download_chunks, receive_upload, split_chunks, storage_state, DOWNLOAD_CHUNK_SIZE,
};
use svc_texture::utilities::compute_identity;

#[test]
fn content_is_cut_into_pieces_of_the_chunk_size() {
    let data: Vec<u8> = (0..10u8).collect();
    let chunks = split_chunks(&data, 4);
    assert_eq!(chunks, vec![vec![0, 1, 2, 3], vec![4, 5, 6, 7], vec![8, 9]]);
    let chunks = split_chunks(&data, 5);
    assert_eq!(chunks, vec![vec![0, 1, 2, 3, 4], vec![5, 6, 7, 8, 9]]);
    let chunks = split_chunks(&data, 64);
    assert_eq!(chunks, vec![data.clone()]);
}

#[test]
fn empty_content_has_no_pieces() {
    assert!(split_chunks(&[], 3).is_empty());
    assert!(download_chunks(&[]).is_empty());
}

#[test]
fn downloads_come_in_mebibyte_pieces() {
    assert_eq!(DOWNLOAD_CHUNK_SIZE, 1024 * 1024);
    let data: Vec<u8> = (0..(5 * DOWNLOAD_CHUNK_SIZE / 2)).map(|i| (i % 251) as u8).collect();
    let chunks = download_chunks(&data);
    let sizes: Vec<usize> = chunks.iter().map(|c| c.len()).collect();
    assert_eq!(sizes, vec![DOWNLOAD_CHUNK_SIZE, DOWNLOAD_CHUNK_SIZE, DOWNLOAD_CHUNK_SIZE / 2]);
    assert_eq!(chunks.concat(), data);
}

#[test]
fn an_upload_stores_its_chunks_in_order() {
    let chunks = vec![b"tex".to_vec(), Vec::new(), b"ture".to_vec()];
    assert_eq!(assemble_upload(&chunks), Some(b"texture".to_vec()));
    assert_eq!(assemble_upload(&Vec::new()), None);
}

#[test]
fn an_upload_is_answered_with_the_identity_of_its_content() {
    let chunks = vec![b"hello ".to_vec(), b"world".to_vec()];
    let (content, identity) = receive_upload(&chunks).expect("stored content");
    assert_eq!(content, b"hello world".to_vec());
    assert_eq!(identity, compute_identity(b"hello world"));
    assert!(receive_upload(&Vec::new()).is_none());
}

#[test]
fn downloaded_pieces_upload_back_unchanged() {
    let data: Vec<u8> = (0..3000u32).map(|i| (i * 7 % 256) as u8).collect();
    let chunks = split_chunks(&data, 1000);
    let (content, identity) = receive_upload(&chunks).expect("stored content");
    assert_eq!(content, data);
    assert_eq!(identity, compute_identity(&data));
}

#[test]
fn state_of_stored_content() {
    assert_eq!(storage_state(Some(42)), (true, 42));
    assert_eq!(storage_state(Some(0)), (true, 0));
    assert_eq!(storage_state(None), (false, 0));
}
