use github_package_gc::error::{AppError, AppResult};

#[test]
fn serde_json_error_becomes_its_variant() {
    let error = serde_json::from_str::<serde_json::Value>("{").unwrap_err();
    let text = error.to_string();
    match AppError::from(error) {
        AppError::SerdeJsonError { error } => assert_eq!(error.to_string(), text),
        other => panic!("{:?}", other),
    }
}

#[test]
fn invalid_header_value_becomes_its_variant() {
    let error = reqwest::header::HeaderValue::from_str("\n").unwrap_err();
    assert!(matches!(AppError::from(error), AppError::InvalidHeaderValue { .. }));
}

#[test]
fn dotenvy_error_becomes_its_variant() {
    let error = dotenvy::Error::LineParse("x y".to_string(), 2);
    match AppError::from(error) {
        AppError::Dotenvy { error: dotenvy::Error::LineParse(line, index) } => {
            assert_eq!(line, "x y");
            assert_eq!(index, 2);
        }
        other => panic!("{:?}", other),
    }
}

#[test]
fn chrono_error_becomes_its_variant() {
    let error = chrono::NaiveDate::parse_from_str("yesterday", "%Y-%m-%d").unwrap_err();
    match AppError::from(error) {
        AppError::ParseError { error: kept } => assert_eq!(kept, error),
        other => panic!("{:?}", other),
    }
}

#[test]
fn reqwest_error_becomes_its_variant() {
    let error = reqwest::Client::new().get("no address").build().unwrap_err();
    assert!(error.is_builder());
    match AppError::from(error) {
        AppError::Reqwest { error } => assert!(error.is_builder()),
        other => panic!("{:?}", other),
    }
}

#[test]
fn question_mark_converts() {
    fn decode(text: &str) -> AppResult<serde_json::Value> {
        Ok(serde_json::from_str::<serde_json::Value>(text)?)
    }
    assert!(decode("[]").is_ok());
    assert!(matches!(decode("["), Err(AppError::SerdeJsonError { .. })));
    let unit: AppResult = Ok(());
    assert!(unit.is_ok());
}
