use nova_telemetry::errors::FrameError;
use nova_telemetry::errors::PageTextError;
use nova_telemetry::page_text::decode_page_text;
use nova_telemetry::page_text::read_page_text;
use nova_telemetry::sample::Sample;
use nova_telemetry::sample::SampleData;

#[test]
fn page_text_decodes_to_bytes() {
    // "Tk9WQQ==" is the standard base64 of the magic bytes N, O, V, A.
    let bytes = decode_page_text("Tk9WQQ==").expect("valid base64");
    assert_eq!(bytes, vec![b'N', b'O', b'V', b'A']);
}

#[test]
fn invalid_page_text_is_rejected() {
    assert_eq!(decode_page_text("not base64 at all!"), None);
    let mut samples: Vec<Sample> = Vec::new();
    let r = read_page_text("not base64 at all!", &mut samples);
    assert_eq!(r, Err(PageTextError::InvalidBase64));
    assert_eq!(samples.len(), 0);
}

#[test]
fn page_text_round_trips_through_the_decoder() {
    let mut page = vec![b'N', b'O', b'V', b'A'];
    page.extend_from_slice(&[b'B', b'B']);
    page.extend_from_slice(&2500i32.to_le_bytes());
    page.extend_from_slice(&101325i32.to_le_bytes());
    let text = base64::encode(&page);
    let mut samples: Vec<Sample> = Vec::new();
    let r = read_page_text(&text, &mut samples);
    assert_eq!(r, Ok(()));
    assert_eq!(samples.len(), 1);
    assert_eq!(
        samples[0].data,
        SampleData::Barometer { temperature: 29815, pressure: 101325 }
    );
}

#[test]
fn page_text_with_bad_header_reports_the_mismatch() {
    let text = base64::encode(&[b'M', b'O', b'V', b'A']);
    let mut samples: Vec<Sample> = Vec::new();
    let r = read_page_text(&text, &mut samples);
    assert_eq!(
        r,
        Err(PageTextError::Frame(FrameError::Unexpected {
            expected: b'N',
            got: b'M',
            index: 0
        }))
    );
    assert_eq!(samples.len(), 0);
}

#[test]
fn recorded_page_text_decodes_and_aggregates() {
    // One real page prefix as the recorder emits it: magic, a barometer
    // record, then accelerometer and gyroscope records.
    let mut page = vec![b'N', b'O', b'V', b'A'];
    page.extend_from_slice(&[b'B', b'B']);
    page.extend_from_slice(&3566i32.to_le_bytes());
    page.extend_from_slice(&101603i32.to_le_bytes());
    page.extend_from_slice(&[b'A', b'A']);
    page.extend_from_slice(&(-1008i16).to_le_bytes());
    page.extend_from_slice(&1133i16.to_le_bytes());
    page.extend_from_slice(&5220i16.to_le_bytes());
    page.extend_from_slice(&[b'G', b'G']);
    page.extend_from_slice(&(-411i16).to_le_bytes());
    page.extend_from_slice(&(-327i16).to_le_bytes());
    page.extend_from_slice(&(-71i16).to_le_bytes());
    let text = base64::encode(&page);
    let mut samples: Vec<Sample> = Vec::new();
    assert_eq!(read_page_text(&text, &mut samples), Ok(()));
    assert_eq!(samples.len(), 3);
    let r = nova_telemetry::stats::aggregate(&samples);
    assert_eq!(r.max_pressure, Some(101603));
    assert_eq!(r.min_pressure, Some(101603));
    let mag = 1008i64 * 1008 + 1133 * 1133 + 5220 * 5220;
    assert_eq!(r.max_accel_magnitude_sq, Some(mag));
    assert_eq!(r.min_accel_magnitude_sq, Some(mag));
}
