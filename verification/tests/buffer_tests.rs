use bulk2es_rs::config::EsConfig;
use bulk2es_rs::output::ElasticsearchOutput;

fn worker(buffer_size: usize) -> ElasticsearchOutput {
    let config = EsConfig::new(
        String::from("http://localhost:9200"),
        buffer_size,
        String::from("docs"),
        String::from("schema.json"),
        String::from("id"),
        None,
        None,
        None,
    )
    .unwrap();
    ElasticsearchOutput::new(config)
}

fn lines(n: usize) -> Vec<String> {
    (0..n).map(|i| format!("{{\"id\":\"{}\"}}", i)).collect()
}

#[test]
fn three_documents_with_buffer_two_make_two_chunks() {
    let mut w = worker(2);
    for l in lines(3) {
        w.add_document(l);
    }
    let chunks = w.close();
    assert_eq!(chunks.len(), 2);
    assert_eq!(chunks[0], lines(3)[0..2].to_vec());
    assert_eq!(chunks[1], lines(3)[2..3].to_vec());
}

#[test]
fn empty_buffer_flushes_to_no_chunk() {
    let mut w = worker(2);
    let chunks = w.close();
    assert!(chunks.is_empty());
}

#[test]
fn small_buffer_fits_in_one_chunk() {
    let mut w = worker(5);
    for l in lines(2) {
        w.add_document(l);
    }
    let chunks = w.close();
    assert_eq!(chunks.len(), 1);
    assert_eq!(chunks[0], lines(2));
}

#[test]
fn exact_multiple_makes_full_chunks_only() {
    let mut w = worker(2);
    for l in lines(4) {
        w.add_document(l);
    }
    let chunks = w.close();
    assert_eq!(chunks.len(), 2);
    assert_eq!(chunks[0].len(), 2);
    assert_eq!(chunks[1].len(), 2);
}

#[test]
fn submission_count_is_ceiling_of_n_over_b() {
    // five documents with buffer size two: three submissions
    let mut w = worker(2);
    for l in lines(5) {
        w.add_document(l);
    }
    assert_eq!(w.close().len(), 3);

    // seven documents with buffer size three: three submissions
    let mut w = worker(3);
    for l in lines(7) {
        w.add_document(l);
    }
    assert_eq!(w.close().len(), 3);
}

#[test]
fn concatenation_of_chunks_preserves_document_order() {
    let mut w = worker(3);
    for l in lines(8) {
        w.add_document(l);
    }
    let chunks = w.close();
    let rebuilt: Vec<String> = chunks.into_iter().flatten().collect();
    assert_eq!(rebuilt, lines(8));
}

#[test]
fn close_drains_the_buffer() {
    let mut w = worker(2);
    for l in lines(3) {
        w.add_document(l);
    }
    let _ = w.close();
    assert!(w.close().is_empty());
}
