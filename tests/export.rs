use std::io::Read;

use flate2::read::GzDecoder;
use myr::export::{csv_escape, encode_export, json_row_fields, render_csv, ExportCompression};

fn strings(items: &[&str]) -> Vec<String> {
    items.iter().map(|s| s.to_string()).collect()
}

#[test]
fn exports_rows_to_csv_with_header_and_escaping() {
    let headers = strings(&["id", "name"]);
    let rows = vec![strings(&["1", "alice"]), strings(&["2", "bob, \"the\" builder"])];
    let csv = render_csv(&headers, &rows);
    assert_eq!(csv, "id,name\n1,alice\n2,\"bob, \"\"the\"\" builder\"\n");
}

#[test]
fn short_rows_are_padded_and_long_rows_cut_to_the_headers() {
    let headers = strings(&["a", "b"]);
    let rows = vec![strings(&["1"]), strings(&["1", "2", "3"])];
    assert_eq!(render_csv(&headers, &rows), "a,b\n1,\n1,2\n");
    assert_eq!(render_csv(&Vec::new(), &Vec::new()), "\n");
    assert_eq!(csv_escape("line\nbreak"), "\"line\nbreak\"");
    assert_eq!(csv_escape("plain"), "plain");
}

#[test]
fn exports_rows_to_gzip_csv() {
    let csv = render_csv(&strings(&["id"]), &vec![strings(&["7"])]);
    let plain = encode_export(&csv, ExportCompression::Uncompressed).expect("bytes");
    assert_eq!(plain, b"id\n7\n".to_vec());
    let gz = encode_export(&csv, ExportCompression::Gzip).expect("gzip");
    assert_ne!(gz, plain);
    assert_eq!(&gz[..2], &[0x1f, 0x8b]);
    let mut decoded = String::new();
    GzDecoder::new(gz.as_slice())
        .read_to_string(&mut decoded)
        .expect("valid gzip");
    assert_eq!(decoded, "id\n7\n");
}

#[test]
fn json_rows_pair_headers_with_values_or_null() {
    let fields = json_row_fields(&strings(&["id", "name"]), &strings(&["7"]));
    assert_eq!(fields, vec![("id".to_string(), Some("7".to_string())), ("name".to_string(), None)]);
}
