//! Serializing command fields into command-line tokens.

use bulk_runner::args::{args_from_fields, ArgField, FieldValue, ToArgs};

struct TestArgs {
    flag: bool,
    string: String,
    number: u64,
}

impl ToArgs for TestArgs {
    fn to_args(&self) -> Vec<String> {
        let fields = vec![
            ArgField::new(Some("flag".to_string()), None, FieldValue::Flag(self.flag)),
            ArgField::new(
                Some("string".to_string()),
                Some('s'),
                FieldValue::Text(self.string.clone()),
            ),
            ArgField::new(
                Some("number".to_string()),
                Some('n'),
                FieldValue::Number(self.number),
            ),
        ];
        args_from_fields(&fields)
    }
}

struct ShortArgs {
    flag: bool,
    string: String,
    number: u64,
}

impl ToArgs for ShortArgs {
    fn to_args(&self) -> Vec<String> {
        let fields = vec![
            ArgField::new(None, Some('f'), FieldValue::Flag(self.flag)),
            ArgField::new(None, Some('s'), FieldValue::Text(self.string.clone())),
            ArgField::new(None, Some('n'), FieldValue::Number(self.number)),
        ];
        args_from_fields(&fields)
    }
}

struct ComplexArgsUser {
    quoted_user: String,
    unquoted_user: String,
}

impl ToArgs for ComplexArgsUser {
    fn to_args(&self) -> Vec<String> {
        let fields = vec![
            ArgField::new(
                Some("quoted_user".to_string()),
                None,
                FieldValue::Text(self.quoted_user.clone()),
            ),
            ArgField::new(
                Some("unquoted_user".to_string()),
                None,
                FieldValue::Text(self.unquoted_user.clone()),
            ),
        ];
        args_from_fields(&fields)
    }
}

struct ComplexArgsPass {
    quoted_pass: String,
    unquoted_pass: String,
}

impl ToArgs for ComplexArgsPass {
    fn to_args(&self) -> Vec<String> {
        let fields = vec![
            ArgField::new(
                Some("quoted_pass".to_string()),
                None,
                FieldValue::Text(self.quoted_pass.clone()),
            ),
            ArgField::new(
                Some("unquoted_pass".to_string()),
                None,
                FieldValue::Text(self.unquoted_pass.clone()),
            ),
        ];
        args_from_fields(&fields)
    }
}

struct ComplexArgs {
    user: String,
    pass: String,
}

impl ToArgs for ComplexArgs {
    fn to_args(&self) -> Vec<String> {
        let fields = vec![
            ArgField::new(Some("user".to_string()), None, FieldValue::Text(self.user.clone())),
            ArgField::new(Some("pass".to_string()), None, FieldValue::Text(self.pass.clone())),
        ];
        args_from_fields(&fields)
    }
}

#[test]
fn test_to_args_with_all_fields() {
    let args = TestArgs {
        flag: true,
        string: "test".to_string(),
        number: 42,
    };

    let result = args.to_args();
    println!("{:?}", result);

    assert_eq!(
        result,
        vec![
            "--flag".to_string(),
            "--string".to_string(),
            "test".to_string(),
            "--number".to_string(),
            "42".to_string(),
        ]
    );
}

#[test]
fn test_to_args_with_false_flag() {
    let args = TestArgs {
        flag: false,
        string: "test".to_string(),
        number: 42,
    };

    let result = args.to_args();
    println!("{:?}", result);

    assert_eq!(
        result,
        vec![
            "--string".to_string(),
            "test".to_string(),
            "--number".to_string(),
            "42".to_string(),
        ]
    );
}

#[test]
fn test_to_args_with_short_options() {
    let args = ShortArgs {
        flag: true,
        string: "test".to_string(),
        number: 42,
    };

    let result = args.to_args();
    println!("{:?}", result);

    assert_eq!(
        result,
        vec![
            "-f".to_string(),
            "-s".to_string(),
            "test".to_string(),
            "-n".to_string(),
            "42".to_string(),
        ]
    );
}

#[test]
fn test_to_args_with_empty_string() {
    let args = TestArgs {
        flag: true,
        string: "".to_string(),
        number: 42,
    };

    let result = args.to_args();
    println!("{:?}", result);

    assert_eq!(
        result,
        vec![
            "--flag".to_string(),
            "--string".to_string(),
            "".to_string(),
            "--number".to_string(),
            "42".to_string(),
        ]
    );
}

#[test]
fn test_to_args_with_zero_number() {
    let args = TestArgs {
        flag: true,
        string: "test".to_string(),
        number: 0,
    };

    let result = args.to_args();
    println!("{:?}", result);

    assert_eq!(
        result,
        vec![
            "--flag".to_string(),
            "--string".to_string(),
            "test".to_string(),
            "--number".to_string(),
            "0".to_string(),
        ]
    );
}

#[test]
fn test_to_args_with_large_number() {
    let args = TestArgs {
        flag: true,
        string: "test".to_string(),
        number: u64::MAX,
    };

    let result = args.to_args();
    println!("{:?}", result);

    assert_eq!(
        result,
        vec![
            "--flag".to_string(),
            "--string".to_string(),
            "test".to_string(),
            "--number".to_string(),
            u64::MAX.to_string(),
        ]
    );
}

#[test]
fn test_to_args_with_complex_user() {
    let args = ComplexArgsUser {
        quoted_user: r"username".to_string(),
        unquoted_user: r"username".to_string(),
    };

    let result = args.to_args();
    println!("{result:?}");
}

#[test]
fn test_to_args_with_complex_pass() {
    let args = ComplexArgsPass {
        quoted_pass: r"password".to_string(),
        unquoted_pass: r"password".to_string(),
    };

    let result = args.to_args();
    println!("{result:?}");
}

#[test]
fn test_to_args_with_complex_user_and_pass() {
    let args = ComplexArgs {
        user: "username".to_string(),
        pass: "password".to_string(),
    };

    let result = args.to_args();
    println!("{result:?}");

    assert_eq!(
        result,
        vec![
            "--user".to_string(),
            args.user,
            "--pass".to_string(),
            args.pass,
        ]
    );
}
