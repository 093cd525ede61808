use flate2::write::GzEncoder;
use flate2::Compression;
use mnist_net::loader::{load_samples, one_hot, LoaderError, MNistData};
use std::io::Write;

fn gz(bytes: &[u8]) -> Vec<u8> {
    let mut enc = GzEncoder::new(Vec::new(), Compression::default());
    enc.write_all(bytes).unwrap();
    enc.finish().unwrap()
}

fn image_stream(dims: [u32; 3], payload: &[u8]) -> Vec<u8> {
    let mut b = 2051u32.to_be_bytes().to_vec();
    for d in dims {
        b.extend_from_slice(&d.to_be_bytes());
    }
    b.extend_from_slice(payload);
    b
}

fn label_stream(count: u32, labels: &[u8]) -> Vec<u8> {
    let mut b = 2049u32.to_be_bytes().to_vec();
    b.extend_from_slice(&count.to_be_bytes());
    b.extend_from_slice(labels);
    b
}

#[test]
fn parses_image_stream() {
    let raw = image_stream([2, 2, 2], &[10, 20, 30, 40, 50, 60, 70, 80]);
    let m = MNistData::from_gz(&gz(&raw)).unwrap();
    assert_eq!(m.sizes(), &vec![2, 2, 2]);
    assert_eq!(m.data(), &vec![10, 20, 30, 40, 50, 60, 70, 80]);
}

#[test]
fn parses_label_stream() {
    let raw = label_stream(2, &[3, 7]);
    let m = MNistData::from_gz(&gz(&raw)).unwrap();
    assert_eq!(m.sizes(), &vec![2]);
    assert_eq!(m.data(), &vec![3, 7]);
}

#[test]
fn parse_reads_uncompressed_stream() {
    let raw = image_stream([1, 2, 2], &[9, 8, 7, 6]);
    let m = MNistData::parse(&raw).unwrap();
    assert_eq!(m.sizes(), &vec![1, 2, 2]);
    assert_eq!(m.data(), &vec![9, 8, 7, 6]);
}

#[test]
fn rejects_unknown_magic() {
    let mut raw = 2050u32.to_be_bytes().to_vec();
    raw.extend_from_slice(&[0; 12]);
    assert_eq!(MNistData::from_gz(&gz(&raw)).unwrap_err(), LoaderError::BadMagic);
}

#[test]
fn rejects_truncated_header() {
    assert_eq!(MNistData::from_gz(&gz(&[0, 0])).unwrap_err(), LoaderError::Truncated);
    // An image stream whose header stops after two of its three dimensions.
    let mut raw = 2051u32.to_be_bytes().to_vec();
    raw.extend_from_slice(&2u32.to_be_bytes());
    raw.extend_from_slice(&2u32.to_be_bytes());
    assert_eq!(MNistData::from_gz(&gz(&raw)).unwrap_err(), LoaderError::Truncated);
}

#[test]
fn rejects_malformed_gzip() {
    // Valid content, but not compressed: decompression must fail, which also
    // shows the decompressor really runs rather than passing bytes through.
    let raw = label_stream(1, &[5]);
    assert_eq!(MNistData::from_gz(&raw).unwrap_err(), LoaderError::BadGzip);
}

#[test]
fn pairs_images_with_labels() {
    let images = MNistData::from_gz(&gz(&image_stream(
        [2, 2, 2],
        &[10, 20, 30, 40, 50, 60, 70, 80],
    )))
    .unwrap();
    let labels = MNistData::from_gz(&gz(&label_stream(2, &[3, 7]))).unwrap();
    let samples = load_samples(&images, &labels).unwrap();
    assert_eq!(samples.len(), 2);
    assert_eq!(samples[0].pixels, vec![10, 20, 30, 40]);
    assert_eq!(samples[0].label, 3);
    assert_eq!(samples[1].pixels, vec![50, 60, 70, 80]);
    assert_eq!(samples[1].label, 7);
}

#[test]
fn pairing_stops_at_label_count() {
    let images = MNistData::from_gz(&gz(&image_stream(
        [2, 2, 2],
        &[10, 20, 30, 40, 50, 60, 70, 80],
    )))
    .unwrap();
    let labels = MNistData::from_gz(&gz(&label_stream(1, &[9]))).unwrap();
    let samples = load_samples(&images, &labels).unwrap();
    assert_eq!(samples.len(), 1);
    assert_eq!(samples[0].label, 9);
}

#[test]
fn pairing_rejects_label_stream_as_images() {
    let labels = MNistData::from_gz(&gz(&label_stream(2, &[3, 7]))).unwrap();
    let err = load_samples(&labels, &labels).unwrap_err();
    assert_eq!(err, LoaderError::BadDimensions);
}

#[test]
fn pairing_rejects_short_payload() {
    let images = MNistData::from_gz(&gz(&image_stream([2, 2, 2], &[10, 20, 30, 40, 50, 60, 70])))
        .unwrap();
    let labels = MNistData::from_gz(&gz(&label_stream(2, &[3, 7]))).unwrap();
    assert_eq!(load_samples(&images, &labels).unwrap_err(), LoaderError::Truncated);
}

#[test]
fn pairing_rejects_oversized_dimensions() {
    let images = MNistData::from_gz(&gz(&image_stream([u32::MAX, u32::MAX, u32::MAX], &[])))
        .unwrap();
    let labels = MNistData::from_gz(&gz(&label_stream(2, &[3, 7]))).unwrap();
    assert_eq!(load_samples(&images, &labels).unwrap_err(), LoaderError::Oversize);
}

#[test]
fn one_hot_marks_single_class() {
    assert_eq!(one_hot(3, 10), vec![0, 0, 0, 1, 0, 0, 0, 0, 0, 0]);
    assert_eq!(one_hot(0, 2), vec![1, 0]);
}
