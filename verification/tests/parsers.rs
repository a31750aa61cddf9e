use mboot::mboot::words::{
    bytes_to_words, extend_with_words, u16_from_le, u16_to_le, u32_from_le, u32_to_le,
    words_to_bytes,
};
use mboot::parsers::{
    parse_hex_values, parse_number, split_point, str_equal, strip_hex_prefix, BytesArgument,
};

#[test]
fn numbers_are_decimal_or_hexadecimal() {
    assert_eq!(parse_number::<u32>("0"), Ok(0));
    assert_eq!(parse_number::<u32>("4294967295"), Ok(u32::MAX));
    assert_eq!(parse_number::<u32>("0x10"), Ok(16));
    assert_eq!(parse_number::<u32>("0xdeadBEEF"), Ok(0xdeadbeef));
    assert_eq!(parse_number::<u32>("+7"), Ok(7));
    assert_eq!(parse_number::<u32>("0x+7"), Ok(7));
    assert_eq!(parse_number::<u32>("007"), Ok(7));
    assert_eq!(parse_number::<u8>("255"), Ok(255));
    assert_eq!(parse_number::<u8>("0xff"), Ok(255));
}

#[test]
fn what_is_no_number_gives_a_message() {
    assert_eq!(
        parse_number::<u32>("4294967296"),
        Err(String::from("number '4294967296' is invalid or too large!"))
    );
    assert_eq!(
        parse_number::<u32>("0x100000000"),
        Err(String::from("hex number '0x100000000' is invalid or too large"))
    );
    assert_eq!(
        parse_number::<u32>("0X10"),
        Err(String::from("number '0X10' is invalid or too large!"))
    );
    assert_eq!(parse_number::<u32>(""), Err(String::from("number '' is invalid or too large!")));
    assert_eq!(parse_number::<u32>("0x"), Err(String::from("hex number '0x' is invalid or too large")));
    assert_eq!(parse_number::<u32>("-1"), Err(String::from("number '-1' is invalid or too large!")));
    assert_eq!(parse_number::<u32>(" 1"), Err(String::from("number ' 1' is invalid or too large!")));
    assert_eq!(parse_number::<u32>("1_0"), Err(String::from("number '1_0' is invalid or too large!")));
    assert_eq!(parse_number::<u32>("+"), Err(String::from("number '+' is invalid or too large!")));
    assert_eq!(parse_number::<u8>("256"), Err(String::from("number '256' is invalid or too large!")));
    assert_eq!(
        parse_number::<u8>("0x100"),
        Err(String::from("hex number '0x100' is invalid or too large"))
    );
    assert_eq!(parse_number::<u32>("12a"), Err(String::from("number '12a' is invalid or too large!")));
    assert_eq!(
        parse_number::<u32>("0xg"),
        Err(String::from("hex number '0xg' is invalid or too large"))
    );
}

#[test]
fn texts_are_compared_character_by_character() {
    assert!(str_equal("", ""));
    assert!(str_equal("current-version", "current-version"));
    assert!(!str_equal("current-version", "current-versioN"));
    assert!(!str_equal("abc", "ab"));
    assert!(str_equal("żółw", "żółw"));
    assert!(!str_equal("żółw", "zolw"));
}

#[test]
fn hex_prefix_is_stripped() {
    assert_eq!(strip_hex_prefix("0x12"), Some("12"));
    assert_eq!(strip_hex_prefix("0x"), Some(""));
    assert_eq!(strip_hex_prefix("0X12"), None);
    assert_eq!(strip_hex_prefix("12"), None);
    assert_eq!(strip_hex_prefix("0"), None);
}

#[test]
fn split_point_is_the_first_separator() {
    assert_eq!(split_point("0x1fc9:0x0135", ':', ','), 6);
    assert_eq!(split_point("0x1fc9,0x0135", ':', ','), 6);
    assert_eq!(split_point("a,b:c", ':', ','), 1);
    assert_eq!(split_point("abc", ':', ','), 3);
    assert_eq!(split_point("", ':', ','), 0);
    assert_eq!(split_point(":", ':', ':'), 0);
}

#[test]
fn words_travel_least_significant_byte_first() {
    assert_eq!(u32_to_le(0x12345678), [0x78, 0x56, 0x34, 0x12]);
    assert_eq!(u32_from_le(0x78, 0x56, 0x34, 0x12), 0x12345678);
    assert_eq!(u16_to_le(0xBEEF), (0xEF, 0xBE));
    assert_eq!(u16_from_le(0xEF, 0xBE), 0xBEEF);
    assert_eq!(words_to_bytes(&[1, 0x01020304]), [1, 0, 0, 0, 4, 3, 2, 1]);
    assert_eq!(bytes_to_words(&[1, 0, 0, 0, 4, 3, 2, 1, 9, 9]), [1, 0x01020304]);
    let mut out = vec![0xAA];
    extend_with_words(&mut out, &[0xffffffff, 0]);
    assert_eq!(out, [0xAA, 0xff, 0xff, 0xff, 0xff, 0, 0, 0, 0]);
    for word in [0u32, 1, 0xff, 0x100, 0xdeadbeef, u32::MAX] {
        let b = u32_to_le(word);
        assert_eq!(b, word.to_le_bytes());
        assert_eq!(u32_from_le(b[0], b[1], b[2], b[3]), word);
    }
}

fn spelled_out(s: &str) -> Result<Vec<u8>, String> {
    match parse_hex_values(s)? {
        BytesArgument::Bytes(bytes) => Ok(bytes),
        other => panic!("unexpected: {other:?}"),
    }
}

#[test]
fn bytes_are_spelled_out_between_braces() {
    assert_eq!(spelled_out("{{112233}}"), Ok(vec![0x11, 0x22, 0x33]));
    assert_eq!(spelled_out("{{11 22 33}}"), Ok(vec![0x11, 0x22, 0x33]));
    assert_eq!(spelled_out("{{ 1 12 23 3 }}"), Ok(vec![0x11, 0x22, 0x33]));
    assert_eq!(spelled_out("{{aB Cd}}"), Ok(vec![0xab, 0xcd]));
    assert_eq!(spelled_out("{{}}"), Ok(vec![]));
    assert_eq!(spelled_out("{{"), Ok(vec![]));
    assert_eq!(spelled_out("{{{0102}"), Ok(vec![1, 2]));
    assert_eq!(spelled_out("{{01}02}}"), Err(String::from("length of the input is not odd")));
    assert_eq!(spelled_out("{{+f+1}}"), Ok(vec![0x0f, 0x01]));
}

#[test]
fn bytes_that_are_none() {
    assert_eq!(spelled_out("{{123}}"), Err(String::from("length of the input is not odd")));
    assert_eq!(spelled_out("{{1g}}"), Err(String::from("invalid byte: '1g'")));
    assert_eq!(spelled_out("{{00 zz 1g}}"), Err(String::from("invalid byte: 'zz'")));
    assert_eq!(spelled_out("{{0 0z z}}"), Err(String::from("invalid byte: 'zz'")));
    // the number of digits is looked at first
    assert_eq!(spelled_out("{{zz1}}"), Err(String::from("length of the input is not odd")));
    assert_eq!(spelled_out("{{0x11}}"), Err(String::from("invalid byte: '0x'")));
}

#[test]
fn files_are_named_with_an_optional_limit() {
    match parse_hex_values("image.bin").unwrap() {
        BytesArgument::File { path, limit } => {
            assert_eq!(path, "image.bin");
            assert_eq!(limit, None);
        }
        other => panic!("unexpected: {other:?}"),
    }
    match parse_hex_values("image.bin,0x100").unwrap() {
        BytesArgument::File { path, limit } => {
            assert_eq!(path, "image.bin");
            assert_eq!(limit, Some(256));
        }
        other => panic!("unexpected: {other:?}"),
    }
    match parse_hex_values("{image.bin,12").unwrap() {
        BytesArgument::File { path, limit } => {
            assert_eq!(path, "{image.bin");
            assert_eq!(limit, Some(12));
        }
        other => panic!("unexpected: {other:?}"),
    }
    assert_eq!(
        parse_hex_values("image.bin,12,3").map(|_| ()),
        Err(String::from("number '12,3' is invalid or too large!"))
    );
    assert_eq!(
        parse_hex_values("image.bin,").map(|_| ()),
        Err(String::from("number '' is invalid or too large!"))
    );
}
