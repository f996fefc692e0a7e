use bulk2es_rs::bulk::build_bulk_body;
use bulk2es_rs::config::EsConfig;
use bulk2es_rs::output::ElasticsearchOutput;

fn docs_config(buffer_size: usize) -> EsConfig {
    EsConfig::new(
        String::from("http://localhost:9200"),
        buffer_size,
        String::from("docs"),
        String::from("schema.json"),
        String::from("id"),
        None,
        None,
        None,
    )
    .unwrap()
}

#[test]
fn fresh_index_single_file_submissions() {
    // three documents, buffer size two: a full first submission and a
    // second one for the remaining document
    let mut w = ElasticsearchOutput::new(docs_config(2));
    w.add_document(String::from("{\"id\":\"1\",\"t\":\"x\"}"));
    w.add_document(String::from("{\"id\":\"2\",\"t\":\"y\"}"));
    w.add_document(String::from("{\"id\":\"3\",\"t\":\"z\"}"));
    let id_field = w.config.id_field_name.clone();
    let chunks = w.close();
    assert_eq!(chunks.len(), 2);

    let first = build_bulk_body(&chunks[0], &id_field).unwrap();
    assert_eq!(
        first,
        vec![
            String::from("{\"index\":{\"_id\":\"1\"}}"),
            String::from("{\"id\":\"1\",\"t\":\"x\"}"),
            String::from("{\"index\":{\"_id\":\"2\"}}"),
            String::from("{\"id\":\"2\",\"t\":\"y\"}"),
        ]
    );

    let second = build_bulk_body(&chunks[1], &id_field).unwrap();
    assert_eq!(
        second,
        vec![
            String::from("{\"index\":{\"_id\":\"3\"}}"),
            String::from("{\"id\":\"3\",\"t\":\"z\"}"),
        ]
    );
}

#[test]
fn offending_line_reaches_no_submission() {
    // a document without the id field poisons its chunk: the body build
    // fails and nothing of that chunk is submitted
    let mut w = ElasticsearchOutput::new(docs_config(2));
    w.add_document(String::from("{\"id\":\"1\"}"));
    w.add_document(String::from("{\"t\":\"x\"}"));
    let id_field = w.config.id_field_name.clone();
    let chunks = w.close();
    assert_eq!(chunks.len(), 1);
    assert!(build_bulk_body(&chunks[0], &id_field).is_err());
}

#[test]
fn sources_across_bodies_keep_file_order() {
    let lines: Vec<String> = (0..7).map(|i| format!("{{\"id\":\"{}\"}}", i)).collect();
    let mut w = ElasticsearchOutput::new(docs_config(3));
    for l in &lines {
        w.add_document(l.clone());
    }
    let id_field = w.config.id_field_name.clone();
    let chunks = w.close();

    let mut sources: Vec<String> = Vec::new();
    for chunk in &chunks {
        let body = build_bulk_body(chunk, &id_field).unwrap();
        for (i, line) in body.iter().enumerate() {
            if i % 2 == 1 {
                sources.push(line.clone());
            }
        }
    }
    assert_eq!(sources, lines);
}
