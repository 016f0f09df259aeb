//! The decoded form of a SQLSTATE code, its outcome category, and the
//! decoder and encoder between the two.
use vstd::prelude::*;
use vstd::string::*;

use crate::class::{
    Warning, NoData, DynamicSqlError, ConnectionException, FeatureNotSupported,
    LocatorException, SqlXmlMappingError, ProhibitedStatementDuringTriggerExecution,
    PassthroughSpecificCondition, DiagnosticsException, DataException,
    IntegrityConstraintViolation, InvalidTransactionState, TriggeredDataChangeViolation,
    SqlRoutineException, CursorSensitivityException, ExternalRoutineException,
    ExternalRoutineInvocationException, SavepointException, TransactionRollback,
    OlbSpecificError, DatalinkException, FdwSpecificCondition, CliSpecificCondition,
    RemoteDatabaseAccess,
};
use crate::code::{is_code_char, is_code_char_exec, spells2, spells3};

verus! {

/// The coarse outcome that a SQLSTATE reports.
#[derive(Clone, Copy, Debug, PartialEq, Eq, Hash, Structural)]
pub enum Category {
    Success,
    Warning,
    NoData,
    Exception,
}

/// Why a text could not be decoded as a SQLSTATE.
#[derive(Clone, Copy, Debug, PartialEq, Eq, Hash, Structural)]
pub enum ParseError {
    /// Not five characters, or a character that is not an ASCII letter or digit.
    MalformedCode,
    /// Well formed, but the first two characters name no class of the catalog.
    UnknownClass,
}

/// Five characters, each an ASCII letter or digit.
pub open spec fn well_formed(s: Seq<char>) -> bool {
    s.len() == 5 && forall|i: int| 0 <= i < 5 ==> is_code_char(#[trigger] s[i])
}

/// The first two characters of `s` are the code of a class of the catalog.
pub open spec fn known_class(s: Seq<char>) -> bool {
    exists|v: SqlState| #[trigger] v.spec_class_code() == (s[0], s[1])
}

/// `v` is what `s` decodes to: the value whose code is `s`, or else, when no
/// value has that code (an unknown subclass, or a class without subclasses),
/// the class that the first two characters name, with no subclass.
pub open spec fn decodes_to(s: Seq<char>, v: SqlState) -> bool {
    v.has_code(s) || (v == v.base() && v.spec_class_code() == (s[0], s[1]) && forall|
        w: SqlState,
    | !#[trigger] w.has_code(s))
}


/// A decoded SQLSTATE: the class, and for classes that define subclasses
/// the subclass if the code names one of the catalog.
#[derive(Clone, Copy, Debug, PartialEq, Eq, Hash, Structural)]
#[non_exhaustive]
pub enum SqlState {
    /// Class `00`.
    Success,
    /// Class `01`.
    Warning(Option<Warning>),
    /// Class `02`.
    NoData(Option<NoData>),
    /// Class `07`.
    DynamicSqlError(Option<DynamicSqlError>),
    /// Class `08`.
    ConnectionException(Option<ConnectionException>),
    /// Class `09`.
    TriggeredActionException,
    /// Class `0A`.
    FeatureNotSupported(Option<FeatureNotSupported>),
    /// Class `0D`.
    InvalidTargetTypeSpecification,
    /// Class `0E`.
    InvalidSchemaNameListSpecification,
    /// Class `0F`.
    LocatorException(Option<LocatorException>),
    /// Class `0K`.
    ResignalWhenHandlerNotActive,
    /// Class `0L`.
    InvalidGrantor,
    /// Class `0M`.
    InvalidSqlInvokedProcedureReference,
    /// Class `0N`.
    SqlXmlMappingError(Option<SqlXmlMappingError>),
    /// Class `0P`.
    InvalidRoleSpecification,
    /// Class `0S`.
    InvalidTransformGroupNameSpecification,
    /// Class `0T`.
    TargetTableDisagreesWithCursorSpecification,
    /// Class `0U`.
    AttemptToAssignToNonUpdatableColumn,
    /// Class `0V`.
    AttemptToAssignToOrderingColumn,
    /// Class `0W`.
    ProhibitedStatementDuringTriggerExecution(Option<ProhibitedStatementDuringTriggerExecution>),
    /// Class `0X`.
    InvalidForeignServerSpecification,
    /// Class `0Y`.
    PassthroughSpecificCondition(Option<PassthroughSpecificCondition>),
    /// Class `0Z`.
    DiagnosticsException(Option<DiagnosticsException>),
    /// Class `10`.
    XQueryError,
    /// Class `20`.
    CaseNotFoundForCaseStatement,
    /// Class `21`.
    CardinalityViolation,
    /// Class `22`.
    DataException(Option<DataException>),
    /// Class `23`.
    IntegrityConstraintViolation(Option<IntegrityConstraintViolation>),
    /// Class `24`.
    InvalidCursorState,
    /// Class `25`.
    InvalidTransactionState(Option<InvalidTransactionState>),
    /// Class `26`.
    InvalidSqlStatementName,
    /// Class `27`.
    TriggeredDataChangeViolation(Option<TriggeredDataChangeViolation>),
    /// Class `28`.
    InvalidAuthorizationSpecification,
    /// Class `2B`.
    DependentPrivilegeDescriptorsExist,
    /// Class `2C`.
    InvalidCharsetName,
    /// Class `2D`.
    InvalidTransactionTermination,
    /// Class `2E`.
    InvalidConnectionName,
    /// Class `2F`.
    SqlRoutineException(Option<SqlRoutineException>),
    /// Class `2H`.
    InvalidCollationName,
    /// Class `30`.
    InvalidSqlStatementIdentifier,
    /// Class `33`.
    InvalidSqlDescriptorName,
    /// Class `34`.
    InvalidCursorName,
    /// Class `35`.
    InvalidConditionNumber,
    /// Class `36`.
    CursorSensitivityException(Option<CursorSensitivityException>),
    /// Class `38`.
    ExternalRoutineException(Option<ExternalRoutineException>),
    /// Class `39`.
    ExternalRoutineInvocationException(Option<ExternalRoutineInvocationException>),
    /// Class `3B`.
    SavepointException(Option<SavepointException>),
    /// Class `3C`.
    AmbiguousCursorName,
    /// Class `3D`.
    InvalidCatalogName,
    /// Class `3F`.
    InvalidSchemaName,
    /// Class `40`.
    TransactionRollback(Option<TransactionRollback>),
    /// Class `42`.
    SyntaxErrorOrAccessRuleViolation,
    /// Class `44`.
    WithCheckOptionViolation,
    /// Class `45`.
    UnhandledUserDefinedException,
    /// Class `46`.
    OlbSpecificError(Option<OlbSpecificError>),
    /// Class `HW`.
    DatalinkException(Option<DatalinkException>),
    /// Class `HV`.
    FdwSpecificCondition(Option<FdwSpecificCondition>),
    /// Class `HY`.
    CliSpecificCondition(Option<CliSpecificCondition>),
    /// Class `HZ`.
    RemoteDatabaseAccess(Option<RemoteDatabaseAccess>),
}

impl SqlState {
    /// The two characters of the class code.
    pub open spec fn spec_class_code(self) -> (char, char) {
        match self {
            SqlState::Success => ('0', '0'),
            SqlState::Warning(_) => ('0', '1'),
            SqlState::NoData(_) => ('0', '2'),
            SqlState::DynamicSqlError(_) => ('0', '7'),
            SqlState::ConnectionException(_) => ('0', '8'),
            SqlState::TriggeredActionException => ('0', '9'),
            SqlState::FeatureNotSupported(_) => ('0', 'A'),
            SqlState::InvalidTargetTypeSpecification => ('0', 'D'),
            SqlState::InvalidSchemaNameListSpecification => ('0', 'E'),
            SqlState::LocatorException(_) => ('0', 'F'),
            SqlState::ResignalWhenHandlerNotActive => ('0', 'K'),
            SqlState::InvalidGrantor => ('0', 'L'),
            SqlState::InvalidSqlInvokedProcedureReference => ('0', 'M'),
            SqlState::SqlXmlMappingError(_) => ('0', 'N'),
            SqlState::InvalidRoleSpecification => ('0', 'P'),
            SqlState::InvalidTransformGroupNameSpecification => ('0', 'S'),
            SqlState::TargetTableDisagreesWithCursorSpecification => ('0', 'T'),
            SqlState::AttemptToAssignToNonUpdatableColumn => ('0', 'U'),
            SqlState::AttemptToAssignToOrderingColumn => ('0', 'V'),
            SqlState::ProhibitedStatementDuringTriggerExecution(_) => ('0', 'W'),
            SqlState::InvalidForeignServerSpecification => ('0', 'X'),
            SqlState::PassthroughSpecificCondition(_) => ('0', 'Y'),
            SqlState::DiagnosticsException(_) => ('0', 'Z'),
            SqlState::XQueryError => ('1', '0'),
            SqlState::CaseNotFoundForCaseStatement => ('2', '0'),
            SqlState::CardinalityViolation => ('2', '1'),
            SqlState::DataException(_) => ('2', '2'),
            SqlState::IntegrityConstraintViolation(_) => ('2', '3'),
            SqlState::InvalidCursorState => ('2', '4'),
            SqlState::InvalidTransactionState(_) => ('2', '5'),
            SqlState::InvalidSqlStatementName => ('2', '6'),
            SqlState::TriggeredDataChangeViolation(_) => ('2', '7'),
            SqlState::InvalidAuthorizationSpecification => ('2', '8'),
            SqlState::DependentPrivilegeDescriptorsExist => ('2', 'B'),
            SqlState::InvalidCharsetName => ('2', 'C'),
            SqlState::InvalidTransactionTermination => ('2', 'D'),
            SqlState::InvalidConnectionName => ('2', 'E'),
            SqlState::SqlRoutineException(_) => ('2', 'F'),
            SqlState::InvalidCollationName => ('2', 'H'),
            SqlState::InvalidSqlStatementIdentifier => ('3', '0'),
            SqlState::InvalidSqlDescriptorName => ('3', '3'),
            SqlState::InvalidCursorName => ('3', '4'),
            SqlState::InvalidConditionNumber => ('3', '5'),
            SqlState::CursorSensitivityException(_) => ('3', '6'),
            SqlState::ExternalRoutineException(_) => ('3', '8'),
            SqlState::ExternalRoutineInvocationException(_) => ('3', '9'),
            SqlState::SavepointException(_) => ('3', 'B'),
            SqlState::AmbiguousCursorName => ('3', 'C'),
            SqlState::InvalidCatalogName => ('3', 'D'),
            SqlState::InvalidSchemaName => ('3', 'F'),
            SqlState::TransactionRollback(_) => ('4', '0'),
            SqlState::SyntaxErrorOrAccessRuleViolation => ('4', '2'),
            SqlState::WithCheckOptionViolation => ('4', '4'),
            SqlState::UnhandledUserDefinedException => ('4', '5'),
            SqlState::OlbSpecificError(_) => ('4', '6'),
            SqlState::DatalinkException(_) => ('H', 'W'),
            SqlState::FdwSpecificCondition(_) => ('H', 'V'),
            SqlState::CliSpecificCondition(_) => ('H', 'Y'),
            SqlState::RemoteDatabaseAccess(_) => ('H', 'Z'),
        }
    }

    /// The three characters of the subclass code; `000` when no subclass is held.
    pub open spec fn spec_subclass_code(self) -> (char, char, char) {
        match self {
            SqlState::Warning(Some(x)) => x.spec_code(),
            SqlState::NoData(Some(x)) => x.spec_code(),
            SqlState::DynamicSqlError(Some(x)) => x.spec_code(),
            SqlState::ConnectionException(Some(x)) => x.spec_code(),
            SqlState::FeatureNotSupported(Some(x)) => x.spec_code(),
            SqlState::LocatorException(Some(x)) => x.spec_code(),
            SqlState::SqlXmlMappingError(Some(x)) => x.spec_code(),
            SqlState::ProhibitedStatementDuringTriggerExecution(Some(x)) => x.spec_code(),
            SqlState::PassthroughSpecificCondition(Some(x)) => x.spec_code(),
            SqlState::DiagnosticsException(Some(x)) => x.spec_code(),
            SqlState::DataException(Some(x)) => x.spec_code(),
            SqlState::IntegrityConstraintViolation(Some(x)) => x.spec_code(),
            SqlState::InvalidTransactionState(Some(x)) => x.spec_code(),
            SqlState::TriggeredDataChangeViolation(Some(x)) => x.spec_code(),
            SqlState::SqlRoutineException(Some(x)) => x.spec_code(),
            SqlState::CursorSensitivityException(Some(x)) => x.spec_code(),
            SqlState::ExternalRoutineException(Some(x)) => x.spec_code(),
            SqlState::ExternalRoutineInvocationException(Some(x)) => x.spec_code(),
            SqlState::SavepointException(Some(x)) => x.spec_code(),
            SqlState::TransactionRollback(Some(x)) => x.spec_code(),
            SqlState::OlbSpecificError(Some(x)) => x.spec_code(),
            SqlState::DatalinkException(Some(x)) => x.spec_code(),
            SqlState::FdwSpecificCondition(Some(x)) => x.spec_code(),
            SqlState::CliSpecificCondition(Some(x)) => x.spec_code(),
            SqlState::RemoteDatabaseAccess(Some(x)) => x.spec_code(),
            _ => ('0', '0', '0'),
        }
    }

    /// The same class with no subclass.
    pub open spec fn base(self) -> SqlState {
        match self {
            SqlState::Warning(_) => SqlState::Warning(None),
            SqlState::NoData(_) => SqlState::NoData(None),
            SqlState::DynamicSqlError(_) => SqlState::DynamicSqlError(None),
            SqlState::ConnectionException(_) => SqlState::ConnectionException(None),
            SqlState::FeatureNotSupported(_) => SqlState::FeatureNotSupported(None),
            SqlState::LocatorException(_) => SqlState::LocatorException(None),
            SqlState::SqlXmlMappingError(_) => SqlState::SqlXmlMappingError(None),
            SqlState::ProhibitedStatementDuringTriggerExecution(_) => SqlState::ProhibitedStatementDuringTriggerExecution(None),
            SqlState::PassthroughSpecificCondition(_) => SqlState::PassthroughSpecificCondition(None),
            SqlState::DiagnosticsException(_) => SqlState::DiagnosticsException(None),
            SqlState::DataException(_) => SqlState::DataException(None),
            SqlState::IntegrityConstraintViolation(_) => SqlState::IntegrityConstraintViolation(None),
            SqlState::InvalidTransactionState(_) => SqlState::InvalidTransactionState(None),
            SqlState::TriggeredDataChangeViolation(_) => SqlState::TriggeredDataChangeViolation(None),
            SqlState::SqlRoutineException(_) => SqlState::SqlRoutineException(None),
            SqlState::CursorSensitivityException(_) => SqlState::CursorSensitivityException(None),
            SqlState::ExternalRoutineException(_) => SqlState::ExternalRoutineException(None),
            SqlState::ExternalRoutineInvocationException(_) => SqlState::ExternalRoutineInvocationException(None),
            SqlState::SavepointException(_) => SqlState::SavepointException(None),
            SqlState::TransactionRollback(_) => SqlState::TransactionRollback(None),
            SqlState::OlbSpecificError(_) => SqlState::OlbSpecificError(None),
            SqlState::DatalinkException(_) => SqlState::DatalinkException(None),
            SqlState::FdwSpecificCondition(_) => SqlState::FdwSpecificCondition(None),
            SqlState::CliSpecificCondition(_) => SqlState::CliSpecificCondition(None),
            SqlState::RemoteDatabaseAccess(_) => SqlState::RemoteDatabaseAccess(None),
            _ => self,
        }
    }

    /// The class code as text.
    pub fn class(&self) -> (r: &'static str)
        ensures
            spells2(r@, self.spec_class_code()),
    {
        match self {
            SqlState::Success => {
                proof {
                    reveal_strlit("00");
                }
                "00"
            },
            SqlState::Warning(_) => {
                proof {
                    reveal_strlit("01");
                }
                "01"
            },
            SqlState::NoData(_) => {
                proof {
                    reveal_strlit("02");
                }
                "02"
            },
            SqlState::DynamicSqlError(_) => {
                proof {
                    reveal_strlit("07");
                }
                "07"
            },
            SqlState::ConnectionException(_) => {
                proof {
                    reveal_strlit("08");
                }
                "08"
            },
            SqlState::TriggeredActionException => {
                proof {
                    reveal_strlit("09");
                }
                "09"
            },
            SqlState::FeatureNotSupported(_) => {
                proof {
                    reveal_strlit("0A");
                }
                "0A"
            },
            SqlState::InvalidTargetTypeSpecification => {
                proof {
                    reveal_strlit("0D");
                }
                "0D"
            },
            SqlState::InvalidSchemaNameListSpecification => {
                proof {
                    reveal_strlit("0E");
                }
                "0E"
            },
            SqlState::LocatorException(_) => {
                proof {
                    reveal_strlit("0F");
                }
                "0F"
            },
            SqlState::ResignalWhenHandlerNotActive => {
                proof {
                    reveal_strlit("0K");
                }
                "0K"
            },
            SqlState::InvalidGrantor => {
                proof {
                    reveal_strlit("0L");
                }
                "0L"
            },
            SqlState::InvalidSqlInvokedProcedureReference => {
                proof {
                    reveal_strlit("0M");
                }
                "0M"
            },
            SqlState::SqlXmlMappingError(_) => {
                proof {
                    reveal_strlit("0N");
                }
                "0N"
            },
            SqlState::InvalidRoleSpecification => {
                proof {
                    reveal_strlit("0P");
                }
                "0P"
            },
            SqlState::InvalidTransformGroupNameSpecification => {
                proof {
                    reveal_strlit("0S");
                }
                "0S"
            },
            SqlState::TargetTableDisagreesWithCursorSpecification => {
                proof {
                    reveal_strlit("0T");
                }
                "0T"
            },
            SqlState::AttemptToAssignToNonUpdatableColumn => {
                proof {
                    reveal_strlit("0U");
                }
                "0U"
            },
            SqlState::AttemptToAssignToOrderingColumn => {
                proof {
                    reveal_strlit("0V");
                }
                "0V"
            },
            SqlState::ProhibitedStatementDuringTriggerExecution(_) => {
                proof {
                    reveal_strlit("0W");
                }
                "0W"
            },
            SqlState::InvalidForeignServerSpecification => {
                proof {
                    reveal_strlit("0X");
                }
                "0X"
            },
            SqlState::PassthroughSpecificCondition(_) => {
                proof {
                    reveal_strlit("0Y");
                }
                "0Y"
            },
            SqlState::DiagnosticsException(_) => {
                proof {
                    reveal_strlit("0Z");
                }
                "0Z"
            },
            SqlState::XQueryError => {
                proof {
                    reveal_strlit("10");
                }
                "10"
            },
            SqlState::CaseNotFoundForCaseStatement => {
                proof {
                    reveal_strlit("20");
                }
                "20"
            },
            SqlState::CardinalityViolation => {
                proof {
                    reveal_strlit("21");
                }
                "21"
            },
            SqlState::DataException(_) => {
                proof {
                    reveal_strlit("22");
                }
                "22"
            },
            SqlState::IntegrityConstraintViolation(_) => {
                proof {
                    reveal_strlit("23");
                }
                "23"
            },
            SqlState::InvalidCursorState => {
                proof {
                    reveal_strlit("24");
                }
                "24"
            },
            SqlState::InvalidTransactionState(_) => {
                proof {
                    reveal_strlit("25");
                }
                "25"
            },
            SqlState::InvalidSqlStatementName => {
                proof {
                    reveal_strlit("26");
                }
                "26"
            },
            SqlState::TriggeredDataChangeViolation(_) => {
                proof {
                    reveal_strlit("27");
                }
                "27"
            },
            SqlState::InvalidAuthorizationSpecification => {
                proof {
                    reveal_strlit("28");
                }
                "28"
            },
            SqlState::DependentPrivilegeDescriptorsExist => {
                proof {
                    reveal_strlit("2B");
                }
                "2B"
            },
            SqlState::InvalidCharsetName => {
                proof {
                    reveal_strlit("2C");
                }
                "2C"
            },
            SqlState::InvalidTransactionTermination => {
                proof {
                    reveal_strlit("2D");
                }
                "2D"
            },
            SqlState::InvalidConnectionName => {
                proof {
                    reveal_strlit("2E");
                }
                "2E"
            },
            SqlState::SqlRoutineException(_) => {
                proof {
                    reveal_strlit("2F");
                }
                "2F"
            },
            SqlState::InvalidCollationName => {
                proof {
                    reveal_strlit("2H");
                }
                "2H"
            },
            SqlState::InvalidSqlStatementIdentifier => {
                proof {
                    reveal_strlit("30");
                }
                "30"
            },
            SqlState::InvalidSqlDescriptorName => {
                proof {
                    reveal_strlit("33");
                }
                "33"
            },
            SqlState::InvalidCursorName => {
                proof {
                    reveal_strlit("34");
                }
                "34"
            },
            SqlState::InvalidConditionNumber => {
                proof {
                    reveal_strlit("35");
                }
                "35"
            },
            SqlState::CursorSensitivityException(_) => {
                proof {
                    reveal_strlit("36");
                }
                "36"
            },
            SqlState::ExternalRoutineException(_) => {
                proof {
                    reveal_strlit("38");
                }
                "38"
            },
            SqlState::ExternalRoutineInvocationException(_) => {
                proof {
                    reveal_strlit("39");
                }
                "39"
            },
            SqlState::SavepointException(_) => {
                proof {
                    reveal_strlit("3B");
                }
                "3B"
            },
            SqlState::AmbiguousCursorName => {
                proof {
                    reveal_strlit("3C");
                }
                "3C"
            },
            SqlState::InvalidCatalogName => {
                proof {
                    reveal_strlit("3D");
                }
                "3D"
            },
            SqlState::InvalidSchemaName => {
                proof {
                    reveal_strlit("3F");
                }
                "3F"
            },
            SqlState::TransactionRollback(_) => {
                proof {
                    reveal_strlit("40");
                }
                "40"
            },
            SqlState::SyntaxErrorOrAccessRuleViolation => {
                proof {
                    reveal_strlit("42");
                }
                "42"
            },
            SqlState::WithCheckOptionViolation => {
                proof {
                    reveal_strlit("44");
                }
                "44"
            },
            SqlState::UnhandledUserDefinedException => {
                proof {
                    reveal_strlit("45");
                }
                "45"
            },
            SqlState::OlbSpecificError(_) => {
                proof {
                    reveal_strlit("46");
                }
                "46"
            },
            SqlState::DatalinkException(_) => {
                proof {
                    reveal_strlit("HW");
                }
                "HW"
            },
            SqlState::FdwSpecificCondition(_) => {
                proof {
                    reveal_strlit("HV");
                }
                "HV"
            },
            SqlState::CliSpecificCondition(_) => {
                proof {
                    reveal_strlit("HY");
                }
                "HY"
            },
            SqlState::RemoteDatabaseAccess(_) => {
                proof {
                    reveal_strlit("HZ");
                }
                "HZ"
            },
        }
    }

    /// The subclass code as text, if a subclass is held.
    pub fn subclass(&self) -> (r: Option<&'static str>)
        ensures
            match r {
                Some(t) => spells3(t@, self.spec_subclass_code()) && *self != self.base(),
                None => *self == self.base(),
            },
    {
        match self {
            SqlState::Warning(Some(x)) => Some(x.as_str()),
            SqlState::NoData(Some(x)) => Some(x.as_str()),
            SqlState::DynamicSqlError(Some(x)) => Some(x.as_str()),
            SqlState::ConnectionException(Some(x)) => Some(x.as_str()),
            SqlState::FeatureNotSupported(Some(x)) => Some(x.as_str()),
            SqlState::LocatorException(Some(x)) => Some(x.as_str()),
            SqlState::SqlXmlMappingError(Some(x)) => Some(x.as_str()),
            SqlState::ProhibitedStatementDuringTriggerExecution(Some(x)) => Some(x.as_str()),
            SqlState::PassthroughSpecificCondition(Some(x)) => Some(x.as_str()),
            SqlState::DiagnosticsException(Some(x)) => Some(x.as_str()),
            SqlState::DataException(Some(x)) => Some(x.as_str()),
            SqlState::IntegrityConstraintViolation(Some(x)) => Some(x.as_str()),
            SqlState::InvalidTransactionState(Some(x)) => Some(x.as_str()),
            SqlState::TriggeredDataChangeViolation(Some(x)) => Some(x.as_str()),
            SqlState::SqlRoutineException(Some(x)) => Some(x.as_str()),
            SqlState::CursorSensitivityException(Some(x)) => Some(x.as_str()),
            SqlState::ExternalRoutineException(Some(x)) => Some(x.as_str()),
            SqlState::ExternalRoutineInvocationException(Some(x)) => Some(x.as_str()),
            SqlState::SavepointException(Some(x)) => Some(x.as_str()),
            SqlState::TransactionRollback(Some(x)) => Some(x.as_str()),
            SqlState::OlbSpecificError(Some(x)) => Some(x.as_str()),
            SqlState::DatalinkException(Some(x)) => Some(x.as_str()),
            SqlState::FdwSpecificCondition(Some(x)) => Some(x.as_str()),
            SqlState::CliSpecificCondition(Some(x)) => Some(x.as_str()),
            SqlState::RemoteDatabaseAccess(Some(x)) => Some(x.as_str()),
            _ => None,
        }
    }

    /// Looks a class code up in the catalog of classes.
    fn class_from_code(c: (char, char)) -> (r: Option<SqlState>)
        ensures
            match r {
                Some(v) => v == v.base() && v.spec_class_code() == c,
                None => forall|v: SqlState| #[trigger] v.spec_class_code() != c,
            },
    {
        match c {
            ('0', '0') => Some(SqlState::Success),
            ('0', '1') => Some(SqlState::Warning(None)),
            ('0', '2') => Some(SqlState::NoData(None)),
            ('0', '7') => Some(SqlState::DynamicSqlError(None)),
            ('0', '8') => Some(SqlState::ConnectionException(None)),
            ('0', '9') => Some(SqlState::TriggeredActionException),
            ('0', 'A') => Some(SqlState::FeatureNotSupported(None)),
            ('0', 'D') => Some(SqlState::InvalidTargetTypeSpecification),
            ('0', 'E') => Some(SqlState::InvalidSchemaNameListSpecification),
            ('0', 'F') => Some(SqlState::LocatorException(None)),
            ('0', 'K') => Some(SqlState::ResignalWhenHandlerNotActive),
            ('0', 'L') => Some(SqlState::InvalidGrantor),
            ('0', 'M') => Some(SqlState::InvalidSqlInvokedProcedureReference),
            ('0', 'N') => Some(SqlState::SqlXmlMappingError(None)),
            ('0', 'P') => Some(SqlState::InvalidRoleSpecification),
            ('0', 'S') => Some(SqlState::InvalidTransformGroupNameSpecification),
            ('0', 'T') => Some(SqlState::TargetTableDisagreesWithCursorSpecification),
            ('0', 'U') => Some(SqlState::AttemptToAssignToNonUpdatableColumn),
            ('0', 'V') => Some(SqlState::AttemptToAssignToOrderingColumn),
            ('0', 'W') => Some(SqlState::ProhibitedStatementDuringTriggerExecution(None)),
            ('0', 'X') => Some(SqlState::InvalidForeignServerSpecification),
            ('0', 'Y') => Some(SqlState::PassthroughSpecificCondition(None)),
            ('0', 'Z') => Some(SqlState::DiagnosticsException(None)),
            ('1', '0') => Some(SqlState::XQueryError),
            ('2', '0') => Some(SqlState::CaseNotFoundForCaseStatement),
            ('2', '1') => Some(SqlState::CardinalityViolation),
            ('2', '2') => Some(SqlState::DataException(None)),
            ('2', '3') => Some(SqlState::IntegrityConstraintViolation(None)),
            ('2', '4') => Some(SqlState::InvalidCursorState),
            ('2', '5') => Some(SqlState::InvalidTransactionState(None)),
            ('2', '6') => Some(SqlState::InvalidSqlStatementName),
            ('2', '7') => Some(SqlState::TriggeredDataChangeViolation(None)),
            ('2', '8') => Some(SqlState::InvalidAuthorizationSpecification),
            ('2', 'B') => Some(SqlState::DependentPrivilegeDescriptorsExist),
            ('2', 'C') => Some(SqlState::InvalidCharsetName),
            ('2', 'D') => Some(SqlState::InvalidTransactionTermination),
            ('2', 'E') => Some(SqlState::InvalidConnectionName),
            ('2', 'F') => Some(SqlState::SqlRoutineException(None)),
            ('2', 'H') => Some(SqlState::InvalidCollationName),
            ('3', '0') => Some(SqlState::InvalidSqlStatementIdentifier),
            ('3', '3') => Some(SqlState::InvalidSqlDescriptorName),
            ('3', '4') => Some(SqlState::InvalidCursorName),
            ('3', '5') => Some(SqlState::InvalidConditionNumber),
            ('3', '6') => Some(SqlState::CursorSensitivityException(None)),
            ('3', '8') => Some(SqlState::ExternalRoutineException(None)),
            ('3', '9') => Some(SqlState::ExternalRoutineInvocationException(None)),
            ('3', 'B') => Some(SqlState::SavepointException(None)),
            ('3', 'C') => Some(SqlState::AmbiguousCursorName),
            ('3', 'D') => Some(SqlState::InvalidCatalogName),
            ('3', 'F') => Some(SqlState::InvalidSchemaName),
            ('4', '0') => Some(SqlState::TransactionRollback(None)),
            ('4', '2') => Some(SqlState::SyntaxErrorOrAccessRuleViolation),
            ('4', '4') => Some(SqlState::WithCheckOptionViolation),
            ('4', '5') => Some(SqlState::UnhandledUserDefinedException),
            ('4', '6') => Some(SqlState::OlbSpecificError(None)),
            ('H', 'W') => Some(SqlState::DatalinkException(None)),
            ('H', 'V') => Some(SqlState::FdwSpecificCondition(None)),
            ('H', 'Y') => Some(SqlState::CliSpecificCondition(None)),
            ('H', 'Z') => Some(SqlState::RemoteDatabaseAccess(None)),
            _ => None,
        }
    }

    /// Attaches the subclass that `c` names within this class, if any.
    fn with_subclass(self, c: (char, char, char)) -> (r: SqlState)
        requires
            self == self.base(),
        ensures
            r.base() == self,
            r.spec_subclass_code() == c || (r == self && forall|w: SqlState|
                w.base() == self ==> #[trigger] w.spec_subclass_code() != c),
    {
        match self {
            SqlState::Warning(_) => SqlState::Warning(Warning::from_code(c)),
            SqlState::NoData(_) => SqlState::NoData(NoData::from_code(c)),
            SqlState::DynamicSqlError(_) => SqlState::DynamicSqlError(DynamicSqlError::from_code(c)),
            SqlState::ConnectionException(_) => SqlState::ConnectionException(ConnectionException::from_code(c)),
            SqlState::FeatureNotSupported(_) => SqlState::FeatureNotSupported(FeatureNotSupported::from_code(c)),
            SqlState::LocatorException(_) => SqlState::LocatorException(LocatorException::from_code(c)),
            SqlState::SqlXmlMappingError(_) => SqlState::SqlXmlMappingError(SqlXmlMappingError::from_code(c)),
            SqlState::ProhibitedStatementDuringTriggerExecution(_) => SqlState::ProhibitedStatementDuringTriggerExecution(ProhibitedStatementDuringTriggerExecution::from_code(c)),
            SqlState::PassthroughSpecificCondition(_) => SqlState::PassthroughSpecificCondition(PassthroughSpecificCondition::from_code(c)),
            SqlState::DiagnosticsException(_) => SqlState::DiagnosticsException(DiagnosticsException::from_code(c)),
            SqlState::DataException(_) => SqlState::DataException(DataException::from_code(c)),
            SqlState::IntegrityConstraintViolation(_) => SqlState::IntegrityConstraintViolation(IntegrityConstraintViolation::from_code(c)),
            SqlState::InvalidTransactionState(_) => SqlState::InvalidTransactionState(InvalidTransactionState::from_code(c)),
            SqlState::TriggeredDataChangeViolation(_) => SqlState::TriggeredDataChangeViolation(TriggeredDataChangeViolation::from_code(c)),
            SqlState::SqlRoutineException(_) => SqlState::SqlRoutineException(SqlRoutineException::from_code(c)),
            SqlState::CursorSensitivityException(_) => SqlState::CursorSensitivityException(CursorSensitivityException::from_code(c)),
            SqlState::ExternalRoutineException(_) => SqlState::ExternalRoutineException(ExternalRoutineException::from_code(c)),
            SqlState::ExternalRoutineInvocationException(_) => SqlState::ExternalRoutineInvocationException(ExternalRoutineInvocationException::from_code(c)),
            SqlState::SavepointException(_) => SqlState::SavepointException(SavepointException::from_code(c)),
            SqlState::TransactionRollback(_) => SqlState::TransactionRollback(TransactionRollback::from_code(c)),
            SqlState::OlbSpecificError(_) => SqlState::OlbSpecificError(OlbSpecificError::from_code(c)),
            SqlState::DatalinkException(_) => SqlState::DatalinkException(DatalinkException::from_code(c)),
            SqlState::FdwSpecificCondition(_) => SqlState::FdwSpecificCondition(FdwSpecificCondition::from_code(c)),
            SqlState::CliSpecificCondition(_) => SqlState::CliSpecificCondition(CliSpecificCondition::from_code(c)),
            SqlState::RemoteDatabaseAccess(_) => SqlState::RemoteDatabaseAccess(RemoteDatabaseAccess::from_code(c)),
            _ => self,
        }
    }

    /// Within one class, the subclass code determines the value.
    pub proof fn lemma_subclass_code_determines(a: SqlState, b: SqlState)
        requires
            a.base() == b.base(),
            a.spec_subclass_code() == b.spec_subclass_code(),
        ensures
            a == b,
    {
        match (a, b) {
            (SqlState::Warning(x), SqlState::Warning(y)) => {
                if let (Some(p), Some(q)) = (x, y) {
                    Warning::lemma_code_injective(p, q);
                } else if let Some(p) = x {
                    Warning::lemma_code_injective(p, p);
                } else if let Some(q) = y {
                    Warning::lemma_code_injective(q, q);
                }
            },
            (SqlState::NoData(x), SqlState::NoData(y)) => {
                if let (Some(p), Some(q)) = (x, y) {
                    NoData::lemma_code_injective(p, q);
                } else if let Some(p) = x {
                    NoData::lemma_code_injective(p, p);
                } else if let Some(q) = y {
                    NoData::lemma_code_injective(q, q);
                }
            },
            (SqlState::DynamicSqlError(x), SqlState::DynamicSqlError(y)) => {
                if let (Some(p), Some(q)) = (x, y) {
                    DynamicSqlError::lemma_code_injective(p, q);
                } else if let Some(p) = x {
                    DynamicSqlError::lemma_code_injective(p, p);
                } else if let Some(q) = y {
                    DynamicSqlError::lemma_code_injective(q, q);
                }
            },
            (SqlState::ConnectionException(x), SqlState::ConnectionException(y)) => {
                if let (Some(p), Some(q)) = (x, y) {
                    ConnectionException::lemma_code_injective(p, q);
                } else if let Some(p) = x {
                    ConnectionException::lemma_code_injective(p, p);
                } else if let Some(q) = y {
                    ConnectionException::lemma_code_injective(q, q);
                }
            },
            (SqlState::FeatureNotSupported(x), SqlState::FeatureNotSupported(y)) => {
                if let (Some(p), Some(q)) = (x, y) {
                    FeatureNotSupported::lemma_code_injective(p, q);
                } else if let Some(p) = x {
                    FeatureNotSupported::lemma_code_injective(p, p);
                } else if let Some(q) = y {
                    FeatureNotSupported::lemma_code_injective(q, q);
                }
            },
            (SqlState::LocatorException(x), SqlState::LocatorException(y)) => {
                if let (Some(p), Some(q)) = (x, y) {
                    LocatorException::lemma_code_injective(p, q);
                } else if let Some(p) = x {
                    LocatorException::lemma_code_injective(p, p);
                } else if let Some(q) = y {
                    LocatorException::lemma_code_injective(q, q);
                }
            },
            (SqlState::SqlXmlMappingError(x), SqlState::SqlXmlMappingError(y)) => {
                if let (Some(p), Some(q)) = (x, y) {
                    SqlXmlMappingError::lemma_code_injective(p, q);
                } else if let Some(p) = x {
                    SqlXmlMappingError::lemma_code_injective(p, p);
                } else if let Some(q) = y {
                    SqlXmlMappingError::lemma_code_injective(q, q);
                }
            },
            (SqlState::ProhibitedStatementDuringTriggerExecution(x), SqlState::ProhibitedStatementDuringTriggerExecution(y)) => {
                if let (Some(p), Some(q)) = (x, y) {
                    ProhibitedStatementDuringTriggerExecution::lemma_code_injective(p, q);
                } else if let Some(p) = x {
                    ProhibitedStatementDuringTriggerExecution::lemma_code_injective(p, p);
                } else if let Some(q) = y {
                    ProhibitedStatementDuringTriggerExecution::lemma_code_injective(q, q);
                }
            },
            (SqlState::PassthroughSpecificCondition(x), SqlState::PassthroughSpecificCondition(y)) => {
                if let (Some(p), Some(q)) = (x, y) {
                    PassthroughSpecificCondition::lemma_code_injective(p, q);
                } else if let Some(p) = x {
                    PassthroughSpecificCondition::lemma_code_injective(p, p);
                } else if let Some(q) = y {
                    PassthroughSpecificCondition::lemma_code_injective(q, q);
                }
            },
            (SqlState::DiagnosticsException(x), SqlState::DiagnosticsException(y)) => {
                if let (Some(p), Some(q)) = (x, y) {
                    DiagnosticsException::lemma_code_injective(p, q);
                } else if let Some(p) = x {
                    DiagnosticsException::lemma_code_injective(p, p);
                } else if let Some(q) = y {
                    DiagnosticsException::lemma_code_injective(q, q);
                }
            },
            (SqlState::DataException(x), SqlState::DataException(y)) => {
                if let (Some(p), Some(q)) = (x, y) {
                    DataException::lemma_code_injective(p, q);
                } else if let Some(p) = x {
                    DataException::lemma_code_injective(p, p);
                } else if let Some(q) = y {
                    DataException::lemma_code_injective(q, q);
                }
            },
            (SqlState::IntegrityConstraintViolation(x), SqlState::IntegrityConstraintViolation(y)) => {
                if let (Some(p), Some(q)) = (x, y) {
                    IntegrityConstraintViolation::lemma_code_injective(p, q);
                } else if let Some(p) = x {
                    IntegrityConstraintViolation::lemma_code_injective(p, p);
                } else if let Some(q) = y {
                    IntegrityConstraintViolation::lemma_code_injective(q, q);
                }
            },
            (SqlState::InvalidTransactionState(x), SqlState::InvalidTransactionState(y)) => {
                if let (Some(p), Some(q)) = (x, y) {
                    InvalidTransactionState::lemma_code_injective(p, q);
                } else if let Some(p) = x {
                    InvalidTransactionState::lemma_code_injective(p, p);
                } else if let Some(q) = y {
                    InvalidTransactionState::lemma_code_injective(q, q);
                }
            },
            (SqlState::TriggeredDataChangeViolation(x), SqlState::TriggeredDataChangeViolation(y)) => {
                if let (Some(p), Some(q)) = (x, y) {
                    TriggeredDataChangeViolation::lemma_code_injective(p, q);
                } else if let Some(p) = x {
                    TriggeredDataChangeViolation::lemma_code_injective(p, p);
                } else if let Some(q) = y {
                    TriggeredDataChangeViolation::lemma_code_injective(q, q);
                }
            },
            (SqlState::SqlRoutineException(x), SqlState::SqlRoutineException(y)) => {
                if let (Some(p), Some(q)) = (x, y) {
                    SqlRoutineException::lemma_code_injective(p, q);
                } else if let Some(p) = x {
                    SqlRoutineException::lemma_code_injective(p, p);
                } else if let Some(q) = y {
                    SqlRoutineException::lemma_code_injective(q, q);
                }
            },
            (SqlState::CursorSensitivityException(x), SqlState::CursorSensitivityException(y)) => {
                if let (Some(p), Some(q)) = (x, y) {
                    CursorSensitivityException::lemma_code_injective(p, q);
                } else if let Some(p) = x {
                    CursorSensitivityException::lemma_code_injective(p, p);
                } else if let Some(q) = y {
                    CursorSensitivityException::lemma_code_injective(q, q);
                }
            },
            (SqlState::ExternalRoutineException(x), SqlState::ExternalRoutineException(y)) => {
                if let (Some(p), Some(q)) = (x, y) {
                    ExternalRoutineException::lemma_code_injective(p, q);
                } else if let Some(p) = x {
                    ExternalRoutineException::lemma_code_injective(p, p);
                } else if let Some(q) = y {
                    ExternalRoutineException::lemma_code_injective(q, q);
                }
            },
            (SqlState::ExternalRoutineInvocationException(x), SqlState::ExternalRoutineInvocationException(y)) => {
                if let (Some(p), Some(q)) = (x, y) {
                    ExternalRoutineInvocationException::lemma_code_injective(p, q);
                } else if let Some(p) = x {
                    ExternalRoutineInvocationException::lemma_code_injective(p, p);
                } else if let Some(q) = y {
                    ExternalRoutineInvocationException::lemma_code_injective(q, q);
                }
            },
            (SqlState::SavepointException(x), SqlState::SavepointException(y)) => {
                if let (Some(p), Some(q)) = (x, y) {
                    SavepointException::lemma_code_injective(p, q);
                } else if let Some(p) = x {
                    SavepointException::lemma_code_injective(p, p);
                } else if let Some(q) = y {
                    SavepointException::lemma_code_injective(q, q);
                }
            },
            (SqlState::TransactionRollback(x), SqlState::TransactionRollback(y)) => {
                if let (Some(p), Some(q)) = (x, y) {
                    TransactionRollback::lemma_code_injective(p, q);
                } else if let Some(p) = x {
                    TransactionRollback::lemma_code_injective(p, p);
                } else if let Some(q) = y {
                    TransactionRollback::lemma_code_injective(q, q);
                }
            },
            (SqlState::OlbSpecificError(x), SqlState::OlbSpecificError(y)) => {
                if let (Some(p), Some(q)) = (x, y) {
                    OlbSpecificError::lemma_code_injective(p, q);
                } else if let Some(p) = x {
                    OlbSpecificError::lemma_code_injective(p, p);
                } else if let Some(q) = y {
                    OlbSpecificError::lemma_code_injective(q, q);
                }
            },
            (SqlState::DatalinkException(x), SqlState::DatalinkException(y)) => {
                if let (Some(p), Some(q)) = (x, y) {
                    DatalinkException::lemma_code_injective(p, q);
                } else if let Some(p) = x {
                    DatalinkException::lemma_code_injective(p, p);
                } else if let Some(q) = y {
                    DatalinkException::lemma_code_injective(q, q);
                }
            },
            (SqlState::FdwSpecificCondition(x), SqlState::FdwSpecificCondition(y)) => {
                if let (Some(p), Some(q)) = (x, y) {
                    FdwSpecificCondition::lemma_code_injective(p, q);
                } else if let Some(p) = x {
                    FdwSpecificCondition::lemma_code_injective(p, p);
                } else if let Some(q) = y {
                    FdwSpecificCondition::lemma_code_injective(q, q);
                }
            },
            (SqlState::CliSpecificCondition(x), SqlState::CliSpecificCondition(y)) => {
                if let (Some(p), Some(q)) = (x, y) {
                    CliSpecificCondition::lemma_code_injective(p, q);
                } else if let Some(p) = x {
                    CliSpecificCondition::lemma_code_injective(p, p);
                } else if let Some(q) = y {
                    CliSpecificCondition::lemma_code_injective(q, q);
                }
            },
            (SqlState::RemoteDatabaseAccess(x), SqlState::RemoteDatabaseAccess(y)) => {
                if let (Some(p), Some(q)) = (x, y) {
                    RemoteDatabaseAccess::lemma_code_injective(p, q);
                } else if let Some(p) = x {
                    RemoteDatabaseAccess::lemma_code_injective(p, p);
                } else if let Some(q) = y {
                    RemoteDatabaseAccess::lemma_code_injective(q, q);
                }
            },
            _ => {},
        }
    }

    /// The five characters of the canonical code.
    pub open spec fn spec_code(self) -> Seq<char> {
        let c = self.spec_class_code();
        let s = self.spec_subclass_code();
        seq![c.0, c.1, s.0, s.1, s.2]
    }

    /// `s` is the canonical code of this value.
    pub open spec fn has_code(self, s: Seq<char>) -> bool {
        &&& s.len() == 5
        &&& (s[0], s[1]) == self.spec_class_code()
        &&& (s[2], s[3], s[4]) == self.spec_subclass_code()
    }

    /// The category follows the class alone.
    pub open spec fn spec_category(self) -> Category {
        match self {
            SqlState::Success => Category::Success,
            SqlState::Warning(_) => Category::Warning,
            SqlState::NoData(_) => Category::NoData,
            _ => Category::Exception,
        }
    }

    /// The outcome category of this state.
    pub fn category(&self) -> (r: Category)
        ensures
            r == self.spec_category(),
    {
        match self {
            SqlState::Success => Category::Success,
            SqlState::Warning(_) => Category::Warning,
            SqlState::NoData(_) => Category::NoData,
            _ => Category::Exception,
        }
    }

    /// The canonical five-character code: the class code, then the subclass
    /// code, or `000` when no subclass is held.
    pub fn code(&self) -> (r: String)
        ensures
            r@ == self.spec_code(),
    {
        let mut r = String::new();
        r.append(self.class());
        match self.subclass() {
            Some(t) => r.append(t),
            None => {
                proof {
                    reveal_strlit("000");
                }
                r.append("000");
            },
        }
        assert(r@ =~= self.spec_code());
        r
    }

    /// Decodes a five-character SQLSTATE. A subclass code that the class's
    /// catalog does not hold (or `000`) gives the class with no subclass; a
    /// class without subclasses takes any well-formed subclass code.
    pub fn decode(s: &str) -> (r: Result<SqlState, ParseError>)
        ensures
            r == Err::<SqlState, ParseError>(ParseError::MalformedCode) <==> !well_formed(s@),
            r == Err::<SqlState, ParseError>(ParseError::UnknownClass) <==> well_formed(s@)
                && !known_class(s@),
            r matches Ok(v) ==> decodes_to(s@, v),
    {
        if s.unicode_len() != 5 {
            return Err(ParseError::MalformedCode);
        }
        let c0 = s.get_char(0);
        let c1 = s.get_char(1);
        let c2 = s.get_char(2);
        let c3 = s.get_char(3);
        let c4 = s.get_char(4);
        if !(is_code_char_exec(c0) && is_code_char_exec(c1) && is_code_char_exec(c2)
            && is_code_char_exec(c3) && is_code_char_exec(c4)) {
            proof {
                let q = s@;
                assert(!is_code_char(q[0]) || !is_code_char(q[1]) || !is_code_char(q[2])
                    || !is_code_char(q[3]) || !is_code_char(q[4]));
            }
            return Err(ParseError::MalformedCode);
        }
        assert(well_formed(s@));
        match SqlState::class_from_code((c0, c1)) {
            None => Err(ParseError::UnknownClass),
            Some(b) => {
                let r = b.with_subclass((c2, c3, c4));
                proof {
                    assert(r.spec_class_code() == (c0, c1)) by {
                        lemma_base_keeps_class(r);
                    }
                    if !r.has_code(s@) {
                        assert forall|w: SqlState| !#[trigger] w.has_code(s@) by {
                            if w.has_code(s@) {
                                lemma_class_code_determines_base(w, b);
                            }
                        }
                    }
                }
                Ok(r)
            },
        }
    }
}

/// A value and its class without subclass share the class code.
pub proof fn lemma_base_keeps_class(v: SqlState)
    ensures
        v.base().spec_class_code() == v.spec_class_code(),
        v.base().base() == v.base(),
{
}

/// Two values with the same class code belong to the same class.
pub proof fn lemma_class_code_determines_base(a: SqlState, b: SqlState)
    requires
        a.spec_class_code() == b.spec_class_code(),
    ensures
        a.base() == b.base(),
{
}

impl core::str::FromStr for SqlState {
    type Err = ParseError;

    /// Decodes as `SqlState::decode` does.
    fn from_str(s: &str) -> (r: Result<SqlState, ParseError>)
        ensures
            r == Err::<SqlState, ParseError>(ParseError::MalformedCode) <==> !well_formed(s@),
            r == Err::<SqlState, ParseError>(ParseError::UnknownClass) <==> well_formed(s@)
                && !known_class(s@),
            r matches Ok(v) ==> decodes_to(s@, v),
    {
        SqlState::decode(s)
    }
}

} // verus!
