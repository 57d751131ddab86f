use resp::Array;
use resp::BulkString;
use resp::Command;
use resp::Error;
use resp::Kind;
use resp::Resp;
use resp::SimpleString;

#[test]
fn test_array() {
    let array = Array(vec![
        SimpleString::try_new("Hello, World!".to_string()).unwrap(),
        SimpleString::try_new("Goodbye, World!".to_string()).unwrap(),
    ]);

    assert_eq!(
        array.encode(),
        "*2\r\n+Hello, World!\r\n+Goodbye, World!\r\n"
    );
}

#[test]
fn test_empty_array() {
    let array = Array::<SimpleString>(vec![]);

    assert_eq!(array.encode(), "*0\r\n");
}

#[test]
fn bulk_string_correctly_formatted() {
    let value = "Hello, World!".to_string();
    let bulk_string = BulkString(value.clone());
    assert_eq!(
        bulk_string.encode(),
        format!("${len}\r\n{value}\r\n", len = value.len())
    );
}

#[test]
fn empty_string_correctly_formatted() {
    let bulk_string = BulkString(String::new());
    assert_eq!(bulk_string.encode(), format!("$0\r\n\r\n"));
}

#[test]
fn command_correctly_formatted() {
    let command = Command(Array(vec![
        BulkString("SET".to_string()),
        BulkString("my_key".to_string()),
        BulkString("my_value".to_string()),
    ]));

    assert_eq!(
        command.encode(),
        "*3\r\n$3\r\nSET\r\n$6\r\nmy_key\r\n$8\r\nmy_value\r\n"
    );
}

#[test]
fn command_name_works() {
    let command = Command(Array(vec![BulkString("PING".to_string())]));

    assert_eq!(command.name().unwrap().to_string(), "PING");
}

#[test]
fn command_args_works() {
    let command = Command(Array(vec![
        BulkString("SET".to_string()),
        BulkString("my_key".to_string()),
        BulkString("my_value".to_string()),
    ]));

    assert_eq!(
        command.args(),
        &[
            BulkString("my_key".to_string()),
            BulkString("my_value".to_string())
        ]
    );
}

#[test]
fn test_simple_string() {
    let value = "Hello, World!".to_string();
    let simple_string = SimpleString::try_new(value.clone()).unwrap();
    assert_eq!(simple_string.value(), &value);
}

#[test]
fn simple_string_correctly_formatted() {
    let value = "Hello, World!".to_string();
    let simple_string = SimpleString::try_new(value.clone()).unwrap();
    assert_eq!(simple_string.encode(), format!("+{}\r\n", value));
}

#[test]
fn cr_banned() {
    let value = "Hello, World\r!".to_string();
    let result = SimpleString::try_new(value.clone());
    assert!(result.is_err());
}

#[test]
fn lf_banned() {
    let value = "Hello, World\n!".to_string();
    let result = SimpleString::try_new(value.clone());
    assert!(result.is_err());
}

#[test]
fn kind_sigils() {
    assert_eq!(Kind::SimpleString.as_str(), "+");
    assert_eq!(Kind::BulkString.as_str(), "$");
    assert_eq!(Kind::Array.as_str(), "*");
}

#[test]
fn simple_string_ok_example() {
    let simple_string = SimpleString::try_new("OK".to_string()).unwrap();
    assert_eq!(simple_string.encode(), "+OK\r\n");
}

#[test]
fn cr_error_names_cr_pattern() {
    match SimpleString::try_new("with\rreturn".to_string()) {
        Err(Error::BannedPatterns(p)) => assert_eq!(p, "\r"),
        Ok(_) => panic!("construction must fail on a carriage return"),
    }
}

#[test]
fn lf_error_names_lf_pattern() {
    match SimpleString::try_new("with\nfeed".to_string()) {
        Err(Error::BannedPatterns(p)) => assert_eq!(p, "\n"),
        Ok(_) => panic!("construction must fail on a line feed"),
    }
}

#[test]
fn is_valid_accepts_clean_text() {
    assert!(SimpleString::is_valid(&"no control bytes here".to_string()).is_ok());
}

#[test]
fn is_valid_rejects_embedded_terminator() {
    assert!(SimpleString::is_valid(&"split\r\nframe".to_string()).is_err());
}

#[test]
fn error_message_names_the_pattern() {
    let err = SimpleString::is_valid(&"bad\nvalue".to_string()).unwrap_err();
    assert_eq!(
        err.message(),
        "the value contains banned patterns: \n".to_string()
    );
}

#[test]
fn bulk_string_length_counts_bytes_not_chars() {
    // "héllo" is five characters but six bytes.
    let bulk_string = BulkString("h\u{e9}llo".to_string());
    assert_eq!(bulk_string.encode(), "$6\r\nh\u{e9}llo\r\n");
}

#[test]
fn bulk_string_multi_digit_length() {
    let value = "a".repeat(120);
    let bulk_string = BulkString(value.clone());
    assert_eq!(bulk_string.encode(), format!("$120\r\n{}\r\n", value));
}

#[test]
fn bulk_string_keeps_control_bytes() {
    let bulk_string = BulkString("a\r\nb".to_string());
    assert_eq!(bulk_string.encode(), "$4\r\na\r\nb\r\n");
}

#[test]
fn array_of_bulk_strings() {
    let array = Array(vec![
        BulkString("hi".to_string()),
        BulkString(String::new()),
    ]);
    assert_eq!(array.encode(), "*2\r\n$2\r\nhi\r\n$0\r\n\r\n");
}

#[test]
fn nested_arrays_compose() {
    let inner = Array(vec![SimpleString::try_new("a".to_string()).unwrap()]);
    let array = Array(vec![inner]);
    assert_eq!(array.encode(), "*1\r\n*1\r\n+a\r\n");
}

#[test]
fn command_name_is_none_for_empty_array() {
    let command = Command(Array(vec![]));
    assert!(command.name().is_none());
    assert!(command.args().is_empty());
}

#[test]
fn command_args_empty_for_lone_name() {
    let command = Command(Array(vec![BulkString("PING".to_string())]));
    assert!(command.args().is_empty());
}

#[test]
fn reply_for_read_answers_pong() {
    assert_eq!(resp::reply_for_read(1).unwrap(), "+PONG\r\n");
    assert_eq!(resp::reply_for_read(512).unwrap(), "+PONG\r\n");
}

#[test]
fn reply_for_read_is_silent_on_peer_shutdown() {
    assert!(resp::reply_for_read(0).is_none());
}
