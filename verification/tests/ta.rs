use untamed::error::TaError;
use untamed::extract::{
    check_db_write, db_length_exponent, db_region_size, extract_bootlogs, extract_build_id,
    extract_db_region, extract_serial, run_action, Action, Extracted, BOOTLOG_SIZE,
    BUILD_ID_OFFSET, BUILD_ID_SIZE, DB_LEN_FIELD_OFFSET, DB_OFFSET, MAX_DB_EXPONENT,
    SERIAL_OFFSET, SERIAL_SIZE,
};
use untamed::image::{read_ta, validate_image, TA_SIZE};
use untamed::platform::Platform;

const TAMA_OFFSETS: [usize; 10] = [
    0x2A22E, 0x2DA22, 0x31CEE, 0x3542A, 0x38C46, 0x3C7A2, 0x65412, 0x68C2E, 0x6C78A, 0x70A2E,
];

/// A well-formed image: exact size, magic header, a patterned body, and a
/// database length-exponent of `n`.
fn make_image(n: u16) -> Vec<u8> {
    let mut ta = vec![0u8; TA_SIZE];
    for (i, b) in ta.iter_mut().enumerate() {
        *b = (i % 251) as u8;
    }
    ta[0] = 0xC1;
    ta[1] = 0xE9;
    ta[DB_OFFSET + DB_LEN_FIELD_OFFSET] = (n & 0xFF) as u8;
    ta[DB_OFFSET + DB_LEN_FIELD_OFFSET + 1] = (n >> 8) as u8;
    ta
}

fn put_text(ta: &mut [u8], offset: usize, size: usize, text: &str) {
    let bytes = text.as_bytes();
    assert!(bytes.len() <= size);
    for i in 0..size {
        ta[offset + i] = if i < bytes.len() { bytes[i] } else { b' ' };
    }
}

#[test]
fn validate_accepts_well_formed_image() {
    let ta = make_image(4);
    assert_eq!(validate_image(&ta), Ok(()));
}

#[test]
fn validate_rejects_short_input() {
    let ta = vec![0xC1u8, 0xE9];
    assert_eq!(validate_image(&ta), Err(TaError::SizeMismatch));
}

#[test]
fn validate_rejects_oversized_input() {
    let ta = vec![0u8; TA_SIZE + 1];
    assert_eq!(validate_image(&ta), Err(TaError::SizeMismatch));
}

#[test]
fn validate_rejects_wrong_magic() {
    let mut ta = make_image(4);
    ta[0] = 0x00;
    assert_eq!(validate_image(&ta), Err(TaError::MagicMismatch));
    let mut ta = make_image(4);
    ta[1] = 0x00;
    assert_eq!(validate_image(&ta), Err(TaError::MagicMismatch));
}

#[test]
fn read_ta_copies_the_requested_range() {
    let ta = make_image(4);
    let r = read_ta(&ta, 500, 4);
    assert_eq!(r, ta[500..504].to_vec());
}

#[test]
fn bootlogs_have_the_documented_size_and_content() {
    let ta = make_image(4);
    let logs = match extract_bootlogs(&ta, Platform::Tama) {
        Ok(logs) => logs,
        Err(e) => panic!("unexpected error: {:?}", e),
    };
    assert_eq!(logs.len(), 10);
    for (i, log) in logs.iter().enumerate() {
        assert_eq!(log.len(), BOOTLOG_SIZE);
        let off = TAMA_OFFSETS[i];
        assert_eq!(log[..], ta[off..off + BOOTLOG_SIZE]);
    }
}

#[test]
fn unknown_family_is_not_implemented() {
    let ta = make_image(4);
    assert_eq!(
        extract_bootlogs(&ta, Platform::Kumano),
        Err(TaError::NotImplemented(Platform::Kumano))
    );
    assert_eq!(
        run_action(&ta, Action::DumpBootlogs(Platform::Loire)),
        Err(TaError::NotImplemented(Platform::Loire))
    );
}

#[test]
fn build_id_is_decoded_from_its_field() {
    let mut ta = make_image(4);
    put_text(&mut ta, BUILD_ID_OFFSET, BUILD_ID_SIZE, "47.2.A.10.107");
    let s = extract_build_id(&ta).unwrap();
    assert_eq!(s.len(), BUILD_ID_SIZE);
    assert_eq!(s, format!("{:<32}", "47.2.A.10.107"));
}

#[test]
fn serial_is_decoded_from_its_field() {
    let mut ta = make_image(4);
    put_text(&mut ta, SERIAL_OFFSET, SERIAL_SIZE, "CB5A2Q0KKD");
    let s = extract_serial(&ta).unwrap();
    assert_eq!(s.len(), SERIAL_SIZE);
    assert_eq!(s, "CB5A2Q0KKD");
}

#[test]
fn invalid_utf8_in_build_id_is_a_decode_error() {
    let mut ta = make_image(4);
    put_text(&mut ta, BUILD_ID_OFFSET, BUILD_ID_SIZE, "47.2.A.10.107");
    ta[BUILD_ID_OFFSET] = 0xFF;
    assert_eq!(extract_build_id(&ta), Err(TaError::DecodeError));
    assert_eq!(
        run_action(&ta, Action::ShowBuildid),
        Err(TaError::DecodeError)
    );
}

#[test]
fn invalid_utf8_in_serial_is_a_decode_error() {
    let mut ta = make_image(4);
    put_text(&mut ta, SERIAL_OFFSET, SERIAL_SIZE, "CB5A2Q0KKD");
    ta[SERIAL_OFFSET + 3] = 0xC0;
    assert_eq!(extract_serial(&ta), Err(TaError::DecodeError));
}

#[test]
fn db_length_exponent_is_little_endian() {
    let mut ta = make_image(0);
    ta[DB_OFFSET + DB_LEN_FIELD_OFFSET] = 0x34;
    ta[DB_OFFSET + DB_LEN_FIELD_OFFSET + 1] = 0x12;
    assert_eq!(db_length_exponent(&ta), 0x1234);
}

#[test]
fn db_region_size_is_a_power_of_two() {
    assert_eq!(db_region_size(0), 1);
    assert_eq!(db_region_size(1), 2);
    assert_eq!(db_region_size(4), 16);
    assert_eq!(db_region_size(10), 1024);
    assert_eq!(db_region_size(16), 65536);
    assert_eq!(db_region_size(MAX_DB_EXPONENT), 1048576);
}

#[test]
fn db_region_matches_its_computed_size_and_content() {
    let ta = make_image(4);
    let region = extract_db_region(&ta);
    assert_eq!(region.len(), 16);
    assert_eq!(region[..], ta[DB_OFFSET..DB_OFFSET + 16]);

    let ta = make_image(MAX_DB_EXPONENT);
    let region = extract_db_region(&ta);
    assert_eq!(region.len(), 1048576);
    assert_eq!(region[..], ta[DB_OFFSET..DB_OFFSET + 1048576]);
}

#[test]
fn db_write_round_trip_verifies() {
    let ta = make_image(6);
    let region = extract_db_region(&ta);
    let expected = db_region_size(db_length_exponent(&ta));
    assert_eq!(check_db_write(expected, region.len()), Ok(()));
}

#[test]
fn db_write_size_discrepancy_is_reported() {
    assert_eq!(
        check_db_write(64, 63),
        Err(TaError::WriteVerificationMismatch)
    );
    assert_eq!(
        check_db_write(64, 65),
        Err(TaError::WriteVerificationMismatch)
    );
    assert_eq!(check_db_write(0, 0), Ok(()));
}

#[test]
fn wrong_size_fails_before_any_extraction() {
    for len in [0usize, 100, TA_SIZE - 1, TA_SIZE + 1] {
        let ta = vec![0xC1u8; len];
        for action in [
            Action::DumpBootlogs(Platform::Tama),
            Action::DumpSqlitedb,
            Action::ShowBuildid,
            Action::ShowSerial,
        ] {
            assert_eq!(run_action(&ta, action), Err(TaError::SizeMismatch));
        }
    }
}

#[test]
fn wrong_magic_yields_nothing_to_write() {
    let mut ta = make_image(4);
    ta[1] = 0xAA;
    for action in [
        Action::DumpBootlogs(Platform::Tama),
        Action::DumpSqlitedb,
        Action::ShowBuildid,
        Action::ShowSerial,
    ] {
        assert_eq!(run_action(&ta, action), Err(TaError::MagicMismatch));
    }
}

#[test]
fn run_action_extracts_each_field() {
    let mut ta = make_image(8);
    put_text(&mut ta, BUILD_ID_OFFSET, BUILD_ID_SIZE, "47.2.A.10.107");
    put_text(&mut ta, SERIAL_OFFSET, SERIAL_SIZE, "CB5A2Q0KKD");

    match run_action(&ta, Action::DumpBootlogs(Platform::Tama)) {
        Ok(Extracted::Bootlogs(logs)) => {
            assert_eq!(logs.len(), 10);
            for log in &logs {
                assert_eq!(log.len(), BOOTLOG_SIZE);
            }
        }
        other => panic!("unexpected result: {:?}", other),
    }
    match run_action(&ta, Action::DumpSqlitedb) {
        Ok(Extracted::Database(region)) => assert_eq!(region.len(), 256),
        other => panic!("unexpected result: {:?}", other),
    }
    match run_action(&ta, Action::ShowBuildid) {
        Ok(Extracted::BuildId(s)) => assert_eq!(s, format!("{:<32}", "47.2.A.10.107")),
        other => panic!("unexpected result: {:?}", other),
    }
    match run_action(&ta, Action::ShowSerial) {
        Ok(Extracted::Serial(s)) => assert_eq!(s, "CB5A2Q0KKD"),
        other => panic!("unexpected result: {:?}", other),
    }
}

#[test]
fn bootlog_offsets_are_only_known_for_tama() {
    let offs = Platform::Tama.bootlog_offset().unwrap();
    assert_eq!(offs, TAMA_OFFSETS);
    for p in [
        Platform::Loire,
        Platform::Tone,
        Platform::Yoshino,
        Platform::Nile,
        Platform::Ganges,
        Platform::Kumano,
        Platform::Seine,
        Platform::Edo,
        Platform::Lena,
        Platform::Sagami,
    ] {
        assert_eq!(p.bootlog_offset(), Err(TaError::NotImplemented(p)));
    }
}
