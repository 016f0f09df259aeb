use sqlstate::class::{
    DataException, NoData, RemoteDatabaseAccess, TransactionRollback, Warning,
};
use sqlstate::code::is_code_char_exec;
use sqlstate::standard::{Category, ParseError, SqlState};

#[test]
fn decode_scenarios() {
    assert_eq!(SqlState::decode("00000"), Ok(SqlState::Success));
    assert_eq!(
        SqlState::decode("01005"),
        Ok(SqlState::Warning(Some(Warning::InsufficientItemDescriptorAreas)))
    );
    assert_eq!(
        SqlState::decode("02001"),
        Ok(SqlState::NoData(Some(NoData::NoAdditionalResultSetsReturned)))
    );
    assert_eq!(SqlState::decode("09000"), Ok(SqlState::TriggeredActionException));
    assert_eq!(
        SqlState::decode("0100A"),
        Ok(SqlState::Warning(Some(Warning::QueryExpressionTooLongForInformationSchema)))
    );
}

#[test]
fn absent_subclass_is_none() {
    assert_eq!(SqlState::decode("01000"), Ok(SqlState::Warning(None)));
    assert_eq!(SqlState::decode("00000"), Ok(SqlState::Success));
}

#[test]
fn unknown_class_is_an_error() {
    assert_eq!(SqlState::decode("XX999"), Err(ParseError::UnknownClass));
    assert_eq!(SqlState::decode("0a000"), Err(ParseError::UnknownClass));
}

#[test]
fn malformed_codes_are_rejected() {
    assert_eq!(SqlState::decode(""), Err(ParseError::MalformedCode));
    assert_eq!(SqlState::decode("0100"), Err(ParseError::MalformedCode));
    assert_eq!(SqlState::decode("010000"), Err(ParseError::MalformedCode));
    assert_eq!(SqlState::decode("01-05"), Err(ParseError::MalformedCode));
    assert_eq!(SqlState::decode("01 05"), Err(ParseError::MalformedCode));
    assert_eq!(SqlState::decode("0100é"), Err(ParseError::MalformedCode));
    assert_eq!("XX".parse::<SqlState>(), Err(ParseError::MalformedCode));
}

#[test]
fn unknown_subclass_degrades_to_none() {
    assert_eq!(SqlState::decode("01ZZZ"), Ok(SqlState::Warning(None)));
    assert_eq!(SqlState::decode("22999"), Ok(SqlState::DataException(None)));
    assert_eq!(SqlState::decode("0102f"), Ok(SqlState::Warning(None)));
}

#[test]
fn class_without_subclasses_ignores_suffix() {
    assert_eq!(SqlState::decode("09ABC"), Ok(SqlState::TriggeredActionException));
    assert_eq!(SqlState::decode("42601"), Ok(SqlState::SyntaxErrorOrAccessRuleViolation));
}

#[test]
fn encode_gives_canonical_code() {
    assert_eq!(SqlState::Success.code(), "00000");
    assert_eq!(SqlState::Warning(None).code(), "01000");
    assert_eq!(
        SqlState::Warning(Some(Warning::ArrayDataRightTruncation)).code(),
        "0102F"
    );
    assert_eq!(
        SqlState::DataException(Some(DataException::DivisionByZero)).code(),
        "22012"
    );
    assert_eq!(SqlState::CliSpecificCondition(None).code(), "HY000");
    assert_eq!(SqlState::RemoteDatabaseAccess(None).code(), "HZ000");
}

#[test]
fn class_and_subclass_text() {
    let v = SqlState::TransactionRollback(Some(TransactionRollback::SerializationFailure));
    assert_eq!(v.class(), "40");
    assert_eq!(v.subclass(), Some("001"));
    assert_eq!(SqlState::TransactionRollback(None).subclass(), None);
    assert_eq!(Warning::StringDataRightTruncation.as_str(), "004");
    assert_eq!(Warning::from_code(('0', '0', '4')), Some(Warning::StringDataRightTruncation));
    assert_eq!(Warning::from_code(('0', '0', '0')), None);
}

#[test]
fn round_trip_on_values() {
    let values = vec![
        SqlState::Success,
        SqlState::Warning(None),
        SqlState::Warning(Some(Warning::CursorOperationConflict)),
        SqlState::NoData(Some(NoData::NoAdditionalResultSetsReturned)),
        SqlState::DataException(Some(DataException::InvalidSampleSize)),
        SqlState::DataException(Some(DataException::EscapeCharacterConflict)),
        SqlState::InvalidCollationName,
        SqlState::DatalinkException(None),
        SqlState::RemoteDatabaseAccess(None),
        SqlState::RemoteDatabaseAccess(Some(RemoteDatabaseAccess::TransportFailure)),
    ];
    for v in values {
        assert_eq!(SqlState::decode(&v.code()), Ok(v));
    }
}

#[test]
fn distinct_values_have_distinct_codes() {
    let a = SqlState::Warning(Some(Warning::StringDataRightTruncation)).code();
    let b = SqlState::DataException(Some(DataException::StringDataRightTruncation)).code();
    assert_ne!(a, b);
    assert_ne!(SqlState::Warning(None).code(), SqlState::NoData(None).code());
    assert_ne!(
        Warning::DisconnectError.as_str(),
        Warning::CursorOperationConflict.as_str()
    );
}

#[test]
fn category_partition() {
    assert_eq!(SqlState::Success.category(), Category::Success);
    assert_eq!(SqlState::Warning(None).category(), Category::Warning);
    assert_eq!(
        SqlState::Warning(Some(Warning::PrivilegeNotGranted)).category(),
        Category::Warning
    );
    assert_eq!(SqlState::NoData(None).category(), Category::NoData);
    assert_eq!(
        SqlState::NoData(Some(NoData::NoAdditionalResultSetsReturned)).category(),
        Category::NoData
    );
    assert_eq!(SqlState::TriggeredActionException.category(), Category::Exception);
    assert_eq!(
        SqlState::DataException(Some(DataException::DivisionByZero)).category(),
        Category::Exception
    );
    assert_eq!(
        SqlState::decode("40001").unwrap().category(),
        Category::Exception
    );
}

#[test]
fn code_characters() {
    assert!(is_code_char_exec('0'));
    assert!(is_code_char_exec('Z'));
    assert!(is_code_char_exec('f'));
    assert!(!is_code_char_exec('-'));
    assert!(!is_code_char_exec(' '));
}

#[test]
fn remote_database_access_subclasses() {
    assert_eq!(SqlState::decode("HZ000"), Ok(SqlState::RemoteDatabaseAccess(None)));
    assert_eq!(
        SqlState::decode("HZ080"),
        Ok(SqlState::RemoteDatabaseAccess(Some(RemoteDatabaseAccess::AttributeNotPermitted)))
    );
    assert_eq!(
        SqlState::decode("HZ099"),
        Ok(SqlState::RemoteDatabaseAccess(Some(RemoteDatabaseAccess::VersionNotSupported)))
    );
    assert_eq!(SqlState::decode("HZ123"), Ok(SqlState::RemoteDatabaseAccess(None)));
    assert_eq!(
        SqlState::RemoteDatabaseAccess(Some(RemoteDatabaseAccess::TransportFailure)).code(),
        "HZ095"
    );
    assert_eq!(SqlState::RemoteDatabaseAccess(None).category(), Category::Exception);
}

#[test]
fn from_code_gives_none_for_absent_and_unknown() {
    assert_eq!(RemoteDatabaseAccess::from_code(('0', '0', '0')), None);
    assert_eq!(RemoteDatabaseAccess::from_code(('1', '2', '3')), None);
    assert_eq!(
        RemoteDatabaseAccess::from_code(('0', '8', '4')),
        Some(RemoteDatabaseAccess::FeatureNotSupportedMultipleServerTransactions)
    );
}
