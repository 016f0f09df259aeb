//! Subclass catalogs: for each class that defines subclasses, the
//! three-character subclass codes and the condition each one names.
use vstd::prelude::*;

use crate::code::spells3;

verus! {

/// Subclasses of the `Warning` class.
#[derive(Clone, Copy, Debug, PartialEq, Eq, Hash, Structural)]
pub enum Warning {
    /// `001`: cursor operation conflict.
    CursorOperationConflict,
    /// `002`: disconnect error.
    DisconnectError,
    /// `003`: null value eliminated in set function.
    NullValueEliminatedInSetFunction,
    /// `004`: string data, right truncation.
    StringDataRightTruncation,
    /// `005`: insufficient item descriptor areas.
    InsufficientItemDescriptorAreas,
    /// `006`: privilege not revoked.
    PrivilegeNotRevoked,
    /// `007`: privilege not granted.
    PrivilegeNotGranted,
    /// `009`: search condition too long for information schema.
    SearchConditionTooLongForInformationSchema,
    /// `00A`: query expression too long for information schema.
    QueryExpressionTooLongForInformationSchema,
    /// `00B`: default value too long for information schema.
    DefaultValueTooLongForInformationSchema,
    /// `00C`: result sets returned.
    ResultSetsReturned,
    /// `00D`: additional result sets returned.
    AdditionalResultSetsReturned,
    /// `00E`: attempt to return too many result sets.
    AttemptToReturnTooManyResultSets,
    /// `00F`: statement too long for information schema.
    StatementTooLongForInformationSchema,
    /// `010`: column cannot be mapped.
    ColumnCannotBeMapped,
    /// `011`: SQL-Java path too long for information schema.
    SqlJavaPathTooLongForInformationSchema,
    /// `012`: invalid number of conditions.
    InvalidNumberOfConditions,
    /// `02F`: array data, right truncation.
    ArrayDataRightTruncation,
}

impl Warning {
    /// The three characters of this subclass's code.
    pub open spec fn spec_code(self) -> (char, char, char) {
        match self {
            Warning::CursorOperationConflict => ('0', '0', '1'),
            Warning::DisconnectError => ('0', '0', '2'),
            Warning::NullValueEliminatedInSetFunction => ('0', '0', '3'),
            Warning::StringDataRightTruncation => ('0', '0', '4'),
            Warning::InsufficientItemDescriptorAreas => ('0', '0', '5'),
            Warning::PrivilegeNotRevoked => ('0', '0', '6'),
            Warning::PrivilegeNotGranted => ('0', '0', '7'),
            Warning::SearchConditionTooLongForInformationSchema => ('0', '0', '9'),
            Warning::QueryExpressionTooLongForInformationSchema => ('0', '0', 'A'),
            Warning::DefaultValueTooLongForInformationSchema => ('0', '0', 'B'),
            Warning::ResultSetsReturned => ('0', '0', 'C'),
            Warning::AdditionalResultSetsReturned => ('0', '0', 'D'),
            Warning::AttemptToReturnTooManyResultSets => ('0', '0', 'E'),
            Warning::StatementTooLongForInformationSchema => ('0', '0', 'F'),
            Warning::ColumnCannotBeMapped => ('0', '1', '0'),
            Warning::SqlJavaPathTooLongForInformationSchema => ('0', '1', '1'),
            Warning::InvalidNumberOfConditions => ('0', '1', '2'),
            Warning::ArrayDataRightTruncation => ('0', '2', 'F'),
        }
    }

    /// The subclass code as text.
    pub fn as_str(&self) -> (r: &'static str)
        ensures
            spells3(r@, self.spec_code()),
    {
        match self {
            Warning::CursorOperationConflict => {
                proof {
                    reveal_strlit("001");
                }
                "001"
            },
            Warning::DisconnectError => {
                proof {
                    reveal_strlit("002");
                }
                "002"
            },
            Warning::NullValueEliminatedInSetFunction => {
                proof {
                    reveal_strlit("003");
                }
                "003"
            },
            Warning::StringDataRightTruncation => {
                proof {
                    reveal_strlit("004");
                }
                "004"
            },
            Warning::InsufficientItemDescriptorAreas => {
                proof {
                    reveal_strlit("005");
                }
                "005"
            },
            Warning::PrivilegeNotRevoked => {
                proof {
                    reveal_strlit("006");
                }
                "006"
            },
            Warning::PrivilegeNotGranted => {
                proof {
                    reveal_strlit("007");
                }
                "007"
            },
            Warning::SearchConditionTooLongForInformationSchema => {
                proof {
                    reveal_strlit("009");
                }
                "009"
            },
            Warning::QueryExpressionTooLongForInformationSchema => {
                proof {
                    reveal_strlit("00A");
                }
                "00A"
            },
            Warning::DefaultValueTooLongForInformationSchema => {
                proof {
                    reveal_strlit("00B");
                }
                "00B"
            },
            Warning::ResultSetsReturned => {
                proof {
                    reveal_strlit("00C");
                }
                "00C"
            },
            Warning::AdditionalResultSetsReturned => {
                proof {
                    reveal_strlit("00D");
                }
                "00D"
            },
            Warning::AttemptToReturnTooManyResultSets => {
                proof {
                    reveal_strlit("00E");
                }
                "00E"
            },
            Warning::StatementTooLongForInformationSchema => {
                proof {
                    reveal_strlit("00F");
                }
                "00F"
            },
            Warning::ColumnCannotBeMapped => {
                proof {
                    reveal_strlit("010");
                }
                "010"
            },
            Warning::SqlJavaPathTooLongForInformationSchema => {
                proof {
                    reveal_strlit("011");
                }
                "011"
            },
            Warning::InvalidNumberOfConditions => {
                proof {
                    reveal_strlit("012");
                }
                "012"
            },
            Warning::ArrayDataRightTruncation => {
                proof {
                    reveal_strlit("02F");
                }
                "02F"
            },
        }
    }

    /// Looks a subclass code up in this class's catalog. No subclass has
    /// the code `000`, so `000` (no subclass) also gives `None`.
    pub fn from_code(c: (char, char, char)) -> (r: Option<Warning>)
        ensures
            match r {
                Some(x) => x.spec_code() == c,
                None => forall|x: Warning| #[trigger] x.spec_code() != c,
            },
    {
        match c {
            ('0', '0', '1') => Some(Warning::CursorOperationConflict),
            ('0', '0', '2') => Some(Warning::DisconnectError),
            ('0', '0', '3') => Some(Warning::NullValueEliminatedInSetFunction),
            ('0', '0', '4') => Some(Warning::StringDataRightTruncation),
            ('0', '0', '5') => Some(Warning::InsufficientItemDescriptorAreas),
            ('0', '0', '6') => Some(Warning::PrivilegeNotRevoked),
            ('0', '0', '7') => Some(Warning::PrivilegeNotGranted),
            ('0', '0', '9') => Some(Warning::SearchConditionTooLongForInformationSchema),
            ('0', '0', 'A') => Some(Warning::QueryExpressionTooLongForInformationSchema),
            ('0', '0', 'B') => Some(Warning::DefaultValueTooLongForInformationSchema),
            ('0', '0', 'C') => Some(Warning::ResultSetsReturned),
            ('0', '0', 'D') => Some(Warning::AdditionalResultSetsReturned),
            ('0', '0', 'E') => Some(Warning::AttemptToReturnTooManyResultSets),
            ('0', '0', 'F') => Some(Warning::StatementTooLongForInformationSchema),
            ('0', '1', '0') => Some(Warning::ColumnCannotBeMapped),
            ('0', '1', '1') => Some(Warning::SqlJavaPathTooLongForInformationSchema),
            ('0', '1', '2') => Some(Warning::InvalidNumberOfConditions),
            ('0', '2', 'F') => Some(Warning::ArrayDataRightTruncation),
            _ => None,
        }
    }

    /// Distinct subclasses have distinct codes, none of them `000`.
    pub proof fn lemma_code_injective(a: Warning, b: Warning)
        ensures
            a.spec_code() != ('0', '0', '0'),
            a.spec_code() == b.spec_code() ==> a == b,
    {
        match a {
            Warning::CursorOperationConflict => {},
            Warning::DisconnectError => {},
            Warning::NullValueEliminatedInSetFunction => {},
            Warning::StringDataRightTruncation => {},
            Warning::InsufficientItemDescriptorAreas => {},
            Warning::PrivilegeNotRevoked => {},
            Warning::PrivilegeNotGranted => {},
            Warning::SearchConditionTooLongForInformationSchema => {},
            Warning::QueryExpressionTooLongForInformationSchema => {},
            Warning::DefaultValueTooLongForInformationSchema => {},
            Warning::ResultSetsReturned => {},
            Warning::AdditionalResultSetsReturned => {},
            Warning::AttemptToReturnTooManyResultSets => {},
            Warning::StatementTooLongForInformationSchema => {},
            Warning::ColumnCannotBeMapped => {},
            Warning::SqlJavaPathTooLongForInformationSchema => {},
            Warning::InvalidNumberOfConditions => {},
            Warning::ArrayDataRightTruncation => {},
        }
    }
}

/// Subclasses of the `NoData` class.
#[derive(Clone, Copy, Debug, PartialEq, Eq, Hash, Structural)]
pub enum NoData {
    /// `001`: no additional result sets returned.
    NoAdditionalResultSetsReturned,
}

impl NoData {
    /// The three characters of this subclass's code.
    pub open spec fn spec_code(self) -> (char, char, char) {
        match self {
            NoData::NoAdditionalResultSetsReturned => ('0', '0', '1'),
        }
    }

    /// The subclass code as text.
    pub fn as_str(&self) -> (r: &'static str)
        ensures
            spells3(r@, self.spec_code()),
    {
        match self {
            NoData::NoAdditionalResultSetsReturned => {
                proof {
                    reveal_strlit("001");
                }
                "001"
            },
        }
    }

    /// Looks a subclass code up in this class's catalog. No subclass has
    /// the code `000`, so `000` (no subclass) also gives `None`.
    pub fn from_code(c: (char, char, char)) -> (r: Option<NoData>)
        ensures
            match r {
                Some(x) => x.spec_code() == c,
                None => forall|x: NoData| #[trigger] x.spec_code() != c,
            },
    {
        match c {
            ('0', '0', '1') => Some(NoData::NoAdditionalResultSetsReturned),
            _ => None,
        }
    }

    /// Distinct subclasses have distinct codes, none of them `000`.
    pub proof fn lemma_code_injective(a: NoData, b: NoData)
        ensures
            a.spec_code() != ('0', '0', '0'),
            a.spec_code() == b.spec_code() ==> a == b,
    {
        match a {
            NoData::NoAdditionalResultSetsReturned => {},
        }
    }
}

/// Subclasses of the `DynamicSqlError` class.
#[derive(Clone, Copy, Debug, PartialEq, Eq, Hash, Structural)]
pub enum DynamicSqlError {
    /// `001`: using clause does not match dynamic parameter specifications.
    UsingClauseDoesNotMatchDynamicParameterSpecifications,
    /// `002`: using clause does not match target specifications.
    UsingClauseDoesNotMatchTargetSpecifications,
    /// `003`: cursor specification cannot be executed.
    CursorSpecificationCannotBeExecuted,
    /// `004`: using clause required for dynamic parameters.
    UsingClauseRequiredForDynamicParameters,
    /// `005`: prepared statement not a cursor specification.
    PreparedStatementNotACursorSpecification,
    /// `006`: restricted data type attribute violation.
    RestrictedDataTypeAttributeViolation,
    /// `007`: using clause required for result fields.
    UsingClauseRequiredForResultFields,
    /// `008`: invalid descriptor count.
    InvalidDescriptorCount,
    /// `009`: invalid descriptor index.
    InvalidDescriptorIndex,
    /// `00B`: data type transform function violation.
    DataTypeTransformFunctionViolation,
    /// `00C`: undefined DATA value.
    UndefinedDataValue,
    /// `00D`: invalid DATA target.
    InvalidDataTarget,
    /// `00E`: invalid LEVEL value.
    InvalidLevelValue,
    /// `00F`: invalid DATETIME_INTERVAL_CODE.
    InvalidDatetimeIntervalCode,
}

impl DynamicSqlError {
    /// The three characters of this subclass's code.
    pub open spec fn spec_code(self) -> (char, char, char) {
        match self {
            DynamicSqlError::UsingClauseDoesNotMatchDynamicParameterSpecifications => ('0', '0', '1'),
            DynamicSqlError::UsingClauseDoesNotMatchTargetSpecifications => ('0', '0', '2'),
            DynamicSqlError::CursorSpecificationCannotBeExecuted => ('0', '0', '3'),
            DynamicSqlError::UsingClauseRequiredForDynamicParameters => ('0', '0', '4'),
            DynamicSqlError::PreparedStatementNotACursorSpecification => ('0', '0', '5'),
            DynamicSqlError::RestrictedDataTypeAttributeViolation => ('0', '0', '6'),
            DynamicSqlError::UsingClauseRequiredForResultFields => ('0', '0', '7'),
            DynamicSqlError::InvalidDescriptorCount => ('0', '0', '8'),
            DynamicSqlError::InvalidDescriptorIndex => ('0', '0', '9'),
            DynamicSqlError::DataTypeTransformFunctionViolation => ('0', '0', 'B'),
            DynamicSqlError::UndefinedDataValue => ('0', '0', 'C'),
            DynamicSqlError::InvalidDataTarget => ('0', '0', 'D'),
            DynamicSqlError::InvalidLevelValue => ('0', '0', 'E'),
            DynamicSqlError::InvalidDatetimeIntervalCode => ('0', '0', 'F'),
        }
    }

    /// The subclass code as text.
    pub fn as_str(&self) -> (r: &'static str)
        ensures
            spells3(r@, self.spec_code()),
    {
        match self {
            DynamicSqlError::UsingClauseDoesNotMatchDynamicParameterSpecifications => {
                proof {
                    reveal_strlit("001");
                }
                "001"
            },
            DynamicSqlError::UsingClauseDoesNotMatchTargetSpecifications => {
                proof {
                    reveal_strlit("002");
                }
                "002"
            },
            DynamicSqlError::CursorSpecificationCannotBeExecuted => {
                proof {
                    reveal_strlit("003");
                }
                "003"
            },
            DynamicSqlError::UsingClauseRequiredForDynamicParameters => {
                proof {
                    reveal_strlit("004");
                }
                "004"
            },
            DynamicSqlError::PreparedStatementNotACursorSpecification => {
                proof {
                    reveal_strlit("005");
                }
                "005"
            },
            DynamicSqlError::RestrictedDataTypeAttributeViolation => {
                proof {
                    reveal_strlit("006");
                }
                "006"
            },
            DynamicSqlError::UsingClauseRequiredForResultFields => {
                proof {
                    reveal_strlit("007");
                }
                "007"
            },
            DynamicSqlError::InvalidDescriptorCount => {
                proof {
                    reveal_strlit("008");
                }
                "008"
            },
            DynamicSqlError::InvalidDescriptorIndex => {
                proof {
                    reveal_strlit("009");
                }
                "009"
            },
            DynamicSqlError::DataTypeTransformFunctionViolation => {
                proof {
                    reveal_strlit("00B");
                }
                "00B"
            },
            DynamicSqlError::UndefinedDataValue => {
                proof {
                    reveal_strlit("00C");
                }
                "00C"
            },
            DynamicSqlError::InvalidDataTarget => {
                proof {
                    reveal_strlit("00D");
                }
                "00D"
            },
            DynamicSqlError::InvalidLevelValue => {
                proof {
                    reveal_strlit("00E");
                }
                "00E"
            },
            DynamicSqlError::InvalidDatetimeIntervalCode => {
                proof {
                    reveal_strlit("00F");
                }
                "00F"
            },
        }
    }

    /// Looks a subclass code up in this class's catalog. No subclass has
    /// the code `000`, so `000` (no subclass) also gives `None`.
    pub fn from_code(c: (char, char, char)) -> (r: Option<DynamicSqlError>)
        ensures
            match r {
                Some(x) => x.spec_code() == c,
                None => forall|x: DynamicSqlError| #[trigger] x.spec_code() != c,
            },
    {
        match c {
            ('0', '0', '1') => Some(DynamicSqlError::UsingClauseDoesNotMatchDynamicParameterSpecifications),
            ('0', '0', '2') => Some(DynamicSqlError::UsingClauseDoesNotMatchTargetSpecifications),
            ('0', '0', '3') => Some(DynamicSqlError::CursorSpecificationCannotBeExecuted),
            ('0', '0', '4') => Some(DynamicSqlError::UsingClauseRequiredForDynamicParameters),
            ('0', '0', '5') => Some(DynamicSqlError::PreparedStatementNotACursorSpecification),
            ('0', '0', '6') => Some(DynamicSqlError::RestrictedDataTypeAttributeViolation),
            ('0', '0', '7') => Some(DynamicSqlError::UsingClauseRequiredForResultFields),
            ('0', '0', '8') => Some(DynamicSqlError::InvalidDescriptorCount),
            ('0', '0', '9') => Some(DynamicSqlError::InvalidDescriptorIndex),
            ('0', '0', 'B') => Some(DynamicSqlError::DataTypeTransformFunctionViolation),
            ('0', '0', 'C') => Some(DynamicSqlError::UndefinedDataValue),
            ('0', '0', 'D') => Some(DynamicSqlError::InvalidDataTarget),
            ('0', '0', 'E') => Some(DynamicSqlError::InvalidLevelValue),
            ('0', '0', 'F') => Some(DynamicSqlError::InvalidDatetimeIntervalCode),
            _ => None,
        }
    }

    /// Distinct subclasses have distinct codes, none of them `000`.
    pub proof fn lemma_code_injective(a: DynamicSqlError, b: DynamicSqlError)
        ensures
            a.spec_code() != ('0', '0', '0'),
            a.spec_code() == b.spec_code() ==> a == b,
    {
        match a {
            DynamicSqlError::UsingClauseDoesNotMatchDynamicParameterSpecifications => {},
            DynamicSqlError::UsingClauseDoesNotMatchTargetSpecifications => {},
            DynamicSqlError::CursorSpecificationCannotBeExecuted => {},
            DynamicSqlError::UsingClauseRequiredForDynamicParameters => {},
            DynamicSqlError::PreparedStatementNotACursorSpecification => {},
            DynamicSqlError::RestrictedDataTypeAttributeViolation => {},
            DynamicSqlError::UsingClauseRequiredForResultFields => {},
            DynamicSqlError::InvalidDescriptorCount => {},
            DynamicSqlError::InvalidDescriptorIndex => {},
            DynamicSqlError::DataTypeTransformFunctionViolation => {},
            DynamicSqlError::UndefinedDataValue => {},
            DynamicSqlError::InvalidDataTarget => {},
            DynamicSqlError::InvalidLevelValue => {},
            DynamicSqlError::InvalidDatetimeIntervalCode => {},
        }
    }
}

/// Subclasses of the `ConnectionException` class.
#[derive(Clone, Copy, Debug, PartialEq, Eq, Hash, Structural)]
pub enum ConnectionException {
    /// `001`: SQL-client unable to establish SQL-connection.
    SqlClientUnableToEstablishSqlConnection,
    /// `002`: connection name in use.
    ConnectionNameInUse,
    /// `003`: connection does not exist.
    ConnectionDoesNotExist,
    /// `004`: SQL-server rejected establishment of SQL-connection.
    SqlServerRejectedEstablishmentOfSqlConnection,
    /// `006`: connection failure.
    ConnectionFailure,
    /// `007`: transaction resolution unknown.
    TransactionResolutionUnknown,
}

impl ConnectionException {
    /// The three characters of this subclass's code.
    pub open spec fn spec_code(self) -> (char, char, char) {
        match self {
            ConnectionException::SqlClientUnableToEstablishSqlConnection => ('0', '0', '1'),
            ConnectionException::ConnectionNameInUse => ('0', '0', '2'),
            ConnectionException::ConnectionDoesNotExist => ('0', '0', '3'),
            ConnectionException::SqlServerRejectedEstablishmentOfSqlConnection => ('0', '0', '4'),
            ConnectionException::ConnectionFailure => ('0', '0', '6'),
            ConnectionException::TransactionResolutionUnknown => ('0', '0', '7'),
        }
    }

    /// The subclass code as text.
    pub fn as_str(&self) -> (r: &'static str)
        ensures
            spells3(r@, self.spec_code()),
    {
        match self {
            ConnectionException::SqlClientUnableToEstablishSqlConnection => {
                proof {
                    reveal_strlit("001");
                }
                "001"
            },
            ConnectionException::ConnectionNameInUse => {
                proof {
                    reveal_strlit("002");
                }
                "002"
            },
            ConnectionException::ConnectionDoesNotExist => {
                proof {
                    reveal_strlit("003");
                }
                "003"
            },
            ConnectionException::SqlServerRejectedEstablishmentOfSqlConnection => {
                proof {
                    reveal_strlit("004");
                }
                "004"
            },
            ConnectionException::ConnectionFailure => {
                proof {
                    reveal_strlit("006");
                }
                "006"
            },
            ConnectionException::TransactionResolutionUnknown => {
                proof {
                    reveal_strlit("007");
                }
                "007"
            },
        }
    }

    /// Looks a subclass code up in this class's catalog. No subclass has
    /// the code `000`, so `000` (no subclass) also gives `None`.
    pub fn from_code(c: (char, char, char)) -> (r: Option<ConnectionException>)
        ensures
            match r {
                Some(x) => x.spec_code() == c,
                None => forall|x: ConnectionException| #[trigger] x.spec_code() != c,
            },
    {
        match c {
            ('0', '0', '1') => Some(ConnectionException::SqlClientUnableToEstablishSqlConnection),
            ('0', '0', '2') => Some(ConnectionException::ConnectionNameInUse),
            ('0', '0', '3') => Some(ConnectionException::ConnectionDoesNotExist),
            ('0', '0', '4') => Some(ConnectionException::SqlServerRejectedEstablishmentOfSqlConnection),
            ('0', '0', '6') => Some(ConnectionException::ConnectionFailure),
            ('0', '0', '7') => Some(ConnectionException::TransactionResolutionUnknown),
            _ => None,
        }
    }

    /// Distinct subclasses have distinct codes, none of them `000`.
    pub proof fn lemma_code_injective(a: ConnectionException, b: ConnectionException)
        ensures
            a.spec_code() != ('0', '0', '0'),
            a.spec_code() == b.spec_code() ==> a == b,
    {
        match a {
            ConnectionException::SqlClientUnableToEstablishSqlConnection => {},
            ConnectionException::ConnectionNameInUse => {},
            ConnectionException::ConnectionDoesNotExist => {},
            ConnectionException::SqlServerRejectedEstablishmentOfSqlConnection => {},
            ConnectionException::ConnectionFailure => {},
            ConnectionException::TransactionResolutionUnknown => {},
        }
    }
}

/// Subclasses of the `FeatureNotSupported` class.
#[derive(Clone, Copy, Debug, PartialEq, Eq, Hash, Structural)]
pub enum FeatureNotSupported {
    /// `001`: multiple server transactions.
    MultipleServerTransactions,
}

impl FeatureNotSupported {
    /// The three characters of this subclass's code.
    pub open spec fn spec_code(self) -> (char, char, char) {
        match self {
            FeatureNotSupported::MultipleServerTransactions => ('0', '0', '1'),
        }
    }

    /// The subclass code as text.
    pub fn as_str(&self) -> (r: &'static str)
        ensures
            spells3(r@, self.spec_code()),
    {
        match self {
            FeatureNotSupported::MultipleServerTransactions => {
                proof {
                    reveal_strlit("001");
                }
                "001"
            },
        }
    }

    /// Looks a subclass code up in this class's catalog. No subclass has
    /// the code `000`, so `000` (no subclass) also gives `None`.
    pub fn from_code(c: (char, char, char)) -> (r: Option<FeatureNotSupported>)
        ensures
            match r {
                Some(x) => x.spec_code() == c,
                None => forall|x: FeatureNotSupported| #[trigger] x.spec_code() != c,
            },
    {
        match c {
            ('0', '0', '1') => Some(FeatureNotSupported::MultipleServerTransactions),
            _ => None,
        }
    }

    /// Distinct subclasses have distinct codes, none of them `000`.
    pub proof fn lemma_code_injective(a: FeatureNotSupported, b: FeatureNotSupported)
        ensures
            a.spec_code() != ('0', '0', '0'),
            a.spec_code() == b.spec_code() ==> a == b,
    {
        match a {
            FeatureNotSupported::MultipleServerTransactions => {},
        }
    }
}

/// Subclasses of the `LocatorException` class.
#[derive(Clone, Copy, Debug, PartialEq, Eq, Hash, Structural)]
pub enum LocatorException {
    /// `001`: invalid specification.
    InvalidSpecification,
}

impl LocatorException {
    /// The three characters of this subclass's code.
    pub open spec fn spec_code(self) -> (char, char, char) {
        match self {
            LocatorException::InvalidSpecification => ('0', '0', '1'),
        }
    }

    /// The subclass code as text.
    pub fn as_str(&self) -> (r: &'static str)
        ensures
            spells3(r@, self.spec_code()),
    {
        match self {
            LocatorException::InvalidSpecification => {
                proof {
                    reveal_strlit("001");
                }
                "001"
            },
        }
    }

    /// Looks a subclass code up in this class's catalog. No subclass has
    /// the code `000`, so `000` (no subclass) also gives `None`.
    pub fn from_code(c: (char, char, char)) -> (r: Option<LocatorException>)
        ensures
            match r {
                Some(x) => x.spec_code() == c,
                None => forall|x: LocatorException| #[trigger] x.spec_code() != c,
            },
    {
        match c {
            ('0', '0', '1') => Some(LocatorException::InvalidSpecification),
            _ => None,
        }
    }

    /// Distinct subclasses have distinct codes, none of them `000`.
    pub proof fn lemma_code_injective(a: LocatorException, b: LocatorException)
        ensures
            a.spec_code() != ('0', '0', '0'),
            a.spec_code() == b.spec_code() ==> a == b,
    {
        match a {
            LocatorException::InvalidSpecification => {},
        }
    }
}

/// Subclasses of the `SqlXmlMappingError` class.
#[derive(Clone, Copy, Debug, PartialEq, Eq, Hash, Structural)]
pub enum SqlXmlMappingError {
    /// `001`: unmappable XML name.
    UnmappableXmlName,
    /// `002`: invalid XML character.
    InvalidXmlCharacter,
}

impl SqlXmlMappingError {
    /// The three characters of this subclass's code.
    pub open spec fn spec_code(self) -> (char, char, char) {
        match self {
            SqlXmlMappingError::UnmappableXmlName => ('0', '0', '1'),
            SqlXmlMappingError::InvalidXmlCharacter => ('0', '0', '2'),
        }
    }

    /// The subclass code as text.
    pub fn as_str(&self) -> (r: &'static str)
        ensures
            spells3(r@, self.spec_code()),
    {
        match self {
            SqlXmlMappingError::UnmappableXmlName => {
                proof {
                    reveal_strlit("001");
                }
                "001"
            },
            SqlXmlMappingError::InvalidXmlCharacter => {
                proof {
                    reveal_strlit("002");
                }
                "002"
            },
        }
    }

    /// Looks a subclass code up in this class's catalog. No subclass has
    /// the code `000`, so `000` (no subclass) also gives `None`.
    pub fn from_code(c: (char, char, char)) -> (r: Option<SqlXmlMappingError>)
        ensures
            match r {
                Some(x) => x.spec_code() == c,
                None => forall|x: SqlXmlMappingError| #[trigger] x.spec_code() != c,
            },
    {
        match c {
            ('0', '0', '1') => Some(SqlXmlMappingError::UnmappableXmlName),
            ('0', '0', '2') => Some(SqlXmlMappingError::InvalidXmlCharacter),
            _ => None,
        }
    }

    /// Distinct subclasses have distinct codes, none of them `000`.
    pub proof fn lemma_code_injective(a: SqlXmlMappingError, b: SqlXmlMappingError)
        ensures
            a.spec_code() != ('0', '0', '0'),
            a.spec_code() == b.spec_code() ==> a == b,
    {
        match a {
            SqlXmlMappingError::UnmappableXmlName => {},
            SqlXmlMappingError::InvalidXmlCharacter => {},
        }
    }
}

/// Subclasses of the `ProhibitedStatementDuringTriggerExecution` class.
#[derive(Clone, Copy, Debug, PartialEq, Eq, Hash, Structural)]
pub enum ProhibitedStatementDuringTriggerExecution {
    /// `001`: modify table modified by data change delta table.
    ModifyTableModifiedByDataChangeDeltaTable,
}

impl ProhibitedStatementDuringTriggerExecution {
    /// The three characters of this subclass's code.
    pub open spec fn spec_code(self) -> (char, char, char) {
        match self {
            ProhibitedStatementDuringTriggerExecution::ModifyTableModifiedByDataChangeDeltaTable => ('0', '0', '1'),
        }
    }

    /// The subclass code as text.
    pub fn as_str(&self) -> (r: &'static str)
        ensures
            spells3(r@, self.spec_code()),
    {
        match self {
            ProhibitedStatementDuringTriggerExecution::ModifyTableModifiedByDataChangeDeltaTable => {
                proof {
                    reveal_strlit("001");
                }
                "001"
            },
        }
    }

    /// Looks a subclass code up in this class's catalog. No subclass has
    /// the code `000`, so `000` (no subclass) also gives `None`.
    pub fn from_code(c: (char, char, char)) -> (r: Option<ProhibitedStatementDuringTriggerExecution>)
        ensures
            match r {
                Some(x) => x.spec_code() == c,
                None => forall|x: ProhibitedStatementDuringTriggerExecution| #[trigger] x.spec_code() != c,
            },
    {
        match c {
            ('0', '0', '1') => Some(ProhibitedStatementDuringTriggerExecution::ModifyTableModifiedByDataChangeDeltaTable),
            _ => None,
        }
    }

    /// Distinct subclasses have distinct codes, none of them `000`.
    pub proof fn lemma_code_injective(a: ProhibitedStatementDuringTriggerExecution, b: ProhibitedStatementDuringTriggerExecution)
        ensures
            a.spec_code() != ('0', '0', '0'),
            a.spec_code() == b.spec_code() ==> a == b,
    {
        match a {
            ProhibitedStatementDuringTriggerExecution::ModifyTableModifiedByDataChangeDeltaTable => {},
        }
    }
}

/// Subclasses of the `PassthroughSpecificCondition` class.
#[derive(Clone, Copy, Debug, PartialEq, Eq, Hash, Structural)]
pub enum PassthroughSpecificCondition {
    /// `001`: invalid cursor option.
    InvalidCursorOption,
    /// `002`: invalid cursor allocation.
    InvalidCursorAllocation,
}

impl PassthroughSpecificCondition {
    /// The three characters of this subclass's code.
    pub open spec fn spec_code(self) -> (char, char, char) {
        match self {
            PassthroughSpecificCondition::InvalidCursorOption => ('0', '0', '1'),
            PassthroughSpecificCondition::InvalidCursorAllocation => ('0', '0', '2'),
        }
    }

    /// The subclass code as text.
    pub fn as_str(&self) -> (r: &'static str)
        ensures
            spells3(r@, self.spec_code()),
    {
        match self {
            PassthroughSpecificCondition::InvalidCursorOption => {
                proof {
                    reveal_strlit("001");
                }
                "001"
            },
            PassthroughSpecificCondition::InvalidCursorAllocation => {
                proof {
                    reveal_strlit("002");
                }
                "002"
            },
        }
    }

    /// Looks a subclass code up in this class's catalog. No subclass has
    /// the code `000`, so `000` (no subclass) also gives `None`.
    pub fn from_code(c: (char, char, char)) -> (r: Option<PassthroughSpecificCondition>)
        ensures
            match r {
                Some(x) => x.spec_code() == c,
                None => forall|x: PassthroughSpecificCondition| #[trigger] x.spec_code() != c,
            },
    {
        match c {
            ('0', '0', '1') => Some(PassthroughSpecificCondition::InvalidCursorOption),
            ('0', '0', '2') => Some(PassthroughSpecificCondition::InvalidCursorAllocation),
            _ => None,
        }
    }

    /// Distinct subclasses have distinct codes, none of them `000`.
    pub proof fn lemma_code_injective(a: PassthroughSpecificCondition, b: PassthroughSpecificCondition)
        ensures
            a.spec_code() != ('0', '0', '0'),
            a.spec_code() == b.spec_code() ==> a == b,
    {
        match a {
            PassthroughSpecificCondition::InvalidCursorOption => {},
            PassthroughSpecificCondition::InvalidCursorAllocation => {},
        }
    }
}

/// Subclasses of the `DiagnosticsException` class.
#[derive(Clone, Copy, Debug, PartialEq, Eq, Hash, Structural)]
pub enum DiagnosticsException {
    /// `001`: maximum number of stacked diagnostics areas exceeded.
    MaximumNumberOfStackedDiagnosticsAreasExceeded,
    /// `002`: stacked diagnostics accessed without active handler.
    StackedDiagnosticsAccessedWithoutActiveHandler,
}

impl DiagnosticsException {
    /// The three characters of this subclass's code.
    pub open spec fn spec_code(self) -> (char, char, char) {
        match self {
            DiagnosticsException::MaximumNumberOfStackedDiagnosticsAreasExceeded => ('0', '0', '1'),
            DiagnosticsException::StackedDiagnosticsAccessedWithoutActiveHandler => ('0', '0', '2'),
        }
    }

    /// The subclass code as text.
    pub fn as_str(&self) -> (r: &'static str)
        ensures
            spells3(r@, self.spec_code()),
    {
        match self {
            DiagnosticsException::MaximumNumberOfStackedDiagnosticsAreasExceeded => {
                proof {
                    reveal_strlit("001");
                }
                "001"
            },
            DiagnosticsException::StackedDiagnosticsAccessedWithoutActiveHandler => {
                proof {
                    reveal_strlit("002");
                }
                "002"
            },
        }
    }

    /// Looks a subclass code up in this class's catalog. No subclass has
    /// the code `000`, so `000` (no subclass) also gives `None`.
    pub fn from_code(c: (char, char, char)) -> (r: Option<DiagnosticsException>)
        ensures
            match r {
                Some(x) => x.spec_code() == c,
                None => forall|x: DiagnosticsException| #[trigger] x.spec_code() != c,
            },
    {
        match c {
            ('0', '0', '1') => Some(DiagnosticsException::MaximumNumberOfStackedDiagnosticsAreasExceeded),
            ('0', '0', '2') => Some(DiagnosticsException::StackedDiagnosticsAccessedWithoutActiveHandler),
            _ => None,
        }
    }

    /// Distinct subclasses have distinct codes, none of them `000`.
    pub proof fn lemma_code_injective(a: DiagnosticsException, b: DiagnosticsException)
        ensures
            a.spec_code() != ('0', '0', '0'),
            a.spec_code() == b.spec_code() ==> a == b,
    {
        match a {
            DiagnosticsException::MaximumNumberOfStackedDiagnosticsAreasExceeded => {},
            DiagnosticsException::StackedDiagnosticsAccessedWithoutActiveHandler => {},
        }
    }
}

/// Subclasses of the `DataException` class.
#[derive(Clone, Copy, Debug, PartialEq, Eq, Hash, Structural)]
pub enum DataException {
    /// `001`: string data, right truncation.
    StringDataRightTruncation,
    /// `002`: null value, no indicator parameter.
    NullValueNoIndicatorParameter,
    /// `003`: numeric value out of range.
    NumericValueOutOfRange,
    /// `004`: null value not allowed.
    NullValueNotAllowed,
    /// `005`: error in assignment.
    ErrorInAssignment,
    /// `006`: invalid interval format.
    InvalidIntervalFormat,
    /// `007`: invalid datetime format.
    InvalidDatetimeFormat,
    /// `008`: datetime field overflow.
    DatetimeFieldOverflow,
    /// `009`: invalid time zone displacement value.
    InvalidTimeZoneDisplacementValue,
    /// `00B`: escape character conflict.
    EscapeCharacterConflict,
    /// `00C`: invalid use of escape character.
    InvalidUseOfEscapeCharacter,
    /// `00D`: invalid escape octet.
    InvalidEscapeOctet,
    /// `00E`: null value in array target.
    NullValueInArrayTarget,
    /// `00F`: zero-length character string.
    ZeroLengthCharacterString,
    /// `00G`: most specific type mismatch.
    MostSpecificTypeMismatch,
    /// `00H`: sequence generator limit exceeded.
    SequenceGeneratorLimitExceeded,
    /// `00J`: nonidentical notations with the same name.
    NonidenticalNotationsWithTheSameName,
    /// `00K`: nonidentical unparsed entities with the same name.
    NonidenticalUnparsedEntitiesWithTheSameName,
    /// `00L`: not an XML document.
    NotAnXmlDocument,
    /// `00M`: invalid XML document.
    InvalidXmlDocument,
    /// `00N`: invalid XML content.
    InvalidXmlContent,
    /// `00P`: interval value out of range.
    IntervalValueOutOfRange,
    /// `00Q`: multiset value overflow.
    MultisetValueOverflow,
    /// `00R`: XML value overflow.
    XmlValueOverflow,
    /// `00S`: invalid comment.
    InvalidComment,
    /// `00T`: invalid processing instruction.
    InvalidProcessingInstruction,
    /// `00U`: not an XQuery document node.
    NotAnXQueryDocumentNode,
    /// `00V`: invalid XQuery context item.
    InvalidXQueryContextItem,
    /// `00W`: XQuery serialization error.
    XQuerySerializationError,
    /// `010`: invalid indicator parameter value.
    InvalidIndicatorParameterValue,
    /// `011`: substring error.
    SubstringError,
    /// `012`: division by zero.
    DivisionByZero,
    /// `013`: invalid preceding or following size in window function.
    InvalidPrecedingOrFollowingSizeInWindowFunction,
    /// `014`: invalid argument for NTILE function.
    InvalidArgumentForNtileFunction,
    /// `015`: interval field overflow.
    IntervalFieldOverflow,
    /// `016`: invalid argument for NTH_VALUE function.
    InvalidArgumentForNthValueFunction,
    /// `017`: invalid data specified for datalink.
    InvalidDataSpecifiedForDatalink,
    /// `018`: invalid character value for cast.
    InvalidCharacterValueForCast,
    /// `019`: invalid escape character.
    InvalidEscapeCharacter,
    /// `01A`: null argument passed to datalink constructor.
    NullArgumentPassedToDatalinkConstructor,
    /// `01B`: invalid regular expression.
    InvalidRegularExpression,
    /// `01C`: null row not permitted in table.
    NullRowNotPermittedInTable,
    /// `01D`: datalink value exceeds maximum length.
    DatalinkValueExceedsMaximumLength,
    /// `01E`: invalid argument for natural logarithm.
    InvalidArgumentForNaturalLogarithm,
    /// `01F`: invalid argument for power function.
    InvalidArgumentForPowerFunction,
    /// `01G`: invalid argument for width bucket function.
    InvalidArgumentForWidthBucketFunction,
    /// `01H`: invalid row version.
    InvalidRowVersion,
    /// `01J`: XQuery sequence cannot be validated.
    XQuerySequenceCannotBeValidated,
    /// `01K`: XQuery document node cannot be validated.
    XQueryDocumentNodeCannotBeValidated,
    /// `01L`: no XML schema found.
    NoXmlSchemaFound,
    /// `01M`: element namespace not declared.
    ElementNamespaceNotDeclared,
    /// `01N`: global element not declared.
    GlobalElementNotDeclared,
    /// `01P`: no XML element with the specified QName.
    NoXmlElementWithTheSpecifiedQName,
    /// `01Q`: no XML element with the specified namespace.
    NoXmlElementWithTheSpecifiedNamespace,
    /// `01R`: validation failure.
    ValidationFailure,
    /// `01S`: invalid XQuery regular expression.
    InvalidXQueryRegularExpression,
    /// `01T`: invalid XQuery option flag.
    InvalidXQueryOptionFlag,
    /// `01U`: attempt to replace a zero-length string.
    AttemptToReplaceAZeroLengthString,
    /// `01V`: invalid XQuery replacement string.
    InvalidXQueryReplacementString,
    /// `01W`: invalid row count in fetch first clause.
    InvalidRowCountInFetchFirstClause,
    /// `01X`: invalid row count in result offset clause.
    InvalidRowCountInResultOffsetClause,
    /// `021`: character not in repertoire.
    CharacterNotInRepertoire,
    /// `022`: indicator overflow.
    IndicatorOverflow,
    /// `023`: invalid parameter value.
    InvalidParameterValue,
    /// `024`: unterminated C string.
    UnterminatedCString,
    /// `025`: invalid escape sequence.
    InvalidEscapeSequence,
    /// `026`: string data, length mismatch.
    StringDataLengthMismatch,
    /// `027`: trim error.
    TrimError,
    /// `029`: noncharacter in UCS string.
    NoncharacterInUcsString,
    /// `02A`: null value in field reference.
    NullValueInFieldReference,
    /// `02D`: null value substituted for mutator subject parameter.
    NullValueSubstitutedForMutatorSubjectParameter,
    /// `02E`: array element error.
    ArrayElementError,
    /// `02F`: array data, right truncation.
    ArrayDataRightTruncation,
    /// `02G`: invalid repeat argument in a sample clause.
    InvalidRepeatArgumentInASampleClause,
    /// `02H`: invalid sample size.
    InvalidSampleSize,
}

impl DataException {
    /// The three characters of this subclass's code.
    pub open spec fn spec_code(self) -> (char, char, char) {
        match self {
            DataException::StringDataRightTruncation => ('0', '0', '1'),
            DataException::NullValueNoIndicatorParameter => ('0', '0', '2'),
            DataException::NumericValueOutOfRange => ('0', '0', '3'),
            DataException::NullValueNotAllowed => ('0', '0', '4'),
            DataException::ErrorInAssignment => ('0', '0', '5'),
            DataException::InvalidIntervalFormat => ('0', '0', '6'),
            DataException::InvalidDatetimeFormat => ('0', '0', '7'),
            DataException::DatetimeFieldOverflow => ('0', '0', '8'),
            DataException::InvalidTimeZoneDisplacementValue => ('0', '0', '9'),
            DataException::EscapeCharacterConflict => ('0', '0', 'B'),
            DataException::InvalidUseOfEscapeCharacter => ('0', '0', 'C'),
            DataException::InvalidEscapeOctet => ('0', '0', 'D'),
            DataException::NullValueInArrayTarget => ('0', '0', 'E'),
            DataException::ZeroLengthCharacterString => ('0', '0', 'F'),
            DataException::MostSpecificTypeMismatch => ('0', '0', 'G'),
            DataException::SequenceGeneratorLimitExceeded => ('0', '0', 'H'),
            DataException::NonidenticalNotationsWithTheSameName => ('0', '0', 'J'),
            DataException::NonidenticalUnparsedEntitiesWithTheSameName => ('0', '0', 'K'),
            DataException::NotAnXmlDocument => ('0', '0', 'L'),
            DataException::InvalidXmlDocument => ('0', '0', 'M'),
            DataException::InvalidXmlContent => ('0', '0', 'N'),
            DataException::IntervalValueOutOfRange => ('0', '0', 'P'),
            DataException::MultisetValueOverflow => ('0', '0', 'Q'),
            DataException::XmlValueOverflow => ('0', '0', 'R'),
            DataException::InvalidComment => ('0', '0', 'S'),
            DataException::InvalidProcessingInstruction => ('0', '0', 'T'),
            DataException::NotAnXQueryDocumentNode => ('0', '0', 'U'),
            DataException::InvalidXQueryContextItem => ('0', '0', 'V'),
            DataException::XQuerySerializationError => ('0', '0', 'W'),
            DataException::InvalidIndicatorParameterValue => ('0', '1', '0'),
            DataException::SubstringError => ('0', '1', '1'),
            DataException::DivisionByZero => ('0', '1', '2'),
            DataException::InvalidPrecedingOrFollowingSizeInWindowFunction => ('0', '1', '3'),
            DataException::InvalidArgumentForNtileFunction => ('0', '1', '4'),
            DataException::IntervalFieldOverflow => ('0', '1', '5'),
            DataException::InvalidArgumentForNthValueFunction => ('0', '1', '6'),
            DataException::InvalidDataSpecifiedForDatalink => ('0', '1', '7'),
            DataException::InvalidCharacterValueForCast => ('0', '1', '8'),
            DataException::InvalidEscapeCharacter => ('0', '1', '9'),
            DataException::NullArgumentPassedToDatalinkConstructor => ('0', '1', 'A'),
            DataException::InvalidRegularExpression => ('0', '1', 'B'),
            DataException::NullRowNotPermittedInTable => ('0', '1', 'C'),
            DataException::DatalinkValueExceedsMaximumLength => ('0', '1', 'D'),
            DataException::InvalidArgumentForNaturalLogarithm => ('0', '1', 'E'),
            DataException::InvalidArgumentForPowerFunction => ('0', '1', 'F'),
            DataException::InvalidArgumentForWidthBucketFunction => ('0', '1', 'G'),
            DataException::InvalidRowVersion => ('0', '1', 'H'),
            DataException::XQuerySequenceCannotBeValidated => ('0', '1', 'J'),
            DataException::XQueryDocumentNodeCannotBeValidated => ('0', '1', 'K'),
            DataException::NoXmlSchemaFound => ('0', '1', 'L'),
            DataException::ElementNamespaceNotDeclared => ('0', '1', 'M'),
            DataException::GlobalElementNotDeclared => ('0', '1', 'N'),
            DataException::NoXmlElementWithTheSpecifiedQName => ('0', '1', 'P'),
            DataException::NoXmlElementWithTheSpecifiedNamespace => ('0', '1', 'Q'),
            DataException::ValidationFailure => ('0', '1', 'R'),
            DataException::InvalidXQueryRegularExpression => ('0', '1', 'S'),
            DataException::InvalidXQueryOptionFlag => ('0', '1', 'T'),
            DataException::AttemptToReplaceAZeroLengthString => ('0', '1', 'U'),
            DataException::InvalidXQueryReplacementString => ('0', '1', 'V'),
            DataException::InvalidRowCountInFetchFirstClause => ('0', '1', 'W'),
            DataException::InvalidRowCountInResultOffsetClause => ('0', '1', 'X'),
            DataException::CharacterNotInRepertoire => ('0', '2', '1'),
            DataException::IndicatorOverflow => ('0', '2', '2'),
            DataException::InvalidParameterValue => ('0', '2', '3'),
            DataException::UnterminatedCString => ('0', '2', '4'),
            DataException::InvalidEscapeSequence => ('0', '2', '5'),
            DataException::StringDataLengthMismatch => ('0', '2', '6'),
            DataException::TrimError => ('0', '2', '7'),
            DataException::NoncharacterInUcsString => ('0', '2', '9'),
            DataException::NullValueInFieldReference => ('0', '2', 'A'),
            DataException::NullValueSubstitutedForMutatorSubjectParameter => ('0', '2', 'D'),
            DataException::ArrayElementError => ('0', '2', 'E'),
            DataException::ArrayDataRightTruncation => ('0', '2', 'F'),
            DataException::InvalidRepeatArgumentInASampleClause => ('0', '2', 'G'),
            DataException::InvalidSampleSize => ('0', '2', 'H'),
        }
    }

    /// The subclass code as text.
    pub fn as_str(&self) -> (r: &'static str)
        ensures
            spells3(r@, self.spec_code()),
    {
        match self {
            DataException::StringDataRightTruncation => {
                proof {
                    reveal_strlit("001");
                }
                "001"
            },
            DataException::NullValueNoIndicatorParameter => {
                proof {
                    reveal_strlit("002");
                }
                "002"
            },
            DataException::NumericValueOutOfRange => {
                proof {
                    reveal_strlit("003");
                }
                "003"
            },
            DataException::NullValueNotAllowed => {
                proof {
                    reveal_strlit("004");
                }
                "004"
            },
            DataException::ErrorInAssignment => {
                proof {
                    reveal_strlit("005");
                }
                "005"
            },
            DataException::InvalidIntervalFormat => {
                proof {
                    reveal_strlit("006");
                }
                "006"
            },
            DataException::InvalidDatetimeFormat => {
                proof {
                    reveal_strlit("007");
                }
                "007"
            },
            DataException::DatetimeFieldOverflow => {
                proof {
                    reveal_strlit("008");
                }
                "008"
            },
            DataException::InvalidTimeZoneDisplacementValue => {
                proof {
                    reveal_strlit("009");
                }
                "009"
            },
            DataException::EscapeCharacterConflict => {
                proof {
                    reveal_strlit("00B");
                }
                "00B"
            },
            DataException::InvalidUseOfEscapeCharacter => {
                proof {
                    reveal_strlit("00C");
                }
                "00C"
            },
            DataException::InvalidEscapeOctet => {
                proof {
                    reveal_strlit("00D");
                }
                "00D"
            },
            DataException::NullValueInArrayTarget => {
                proof {
                    reveal_strlit("00E");
                }
                "00E"
            },
            DataException::ZeroLengthCharacterString => {
                proof {
                    reveal_strlit("00F");
                }
                "00F"
            },
            DataException::MostSpecificTypeMismatch => {
                proof {
                    reveal_strlit("00G");
                }
                "00G"
            },
            DataException::SequenceGeneratorLimitExceeded => {
                proof {
                    reveal_strlit("00H");
                }
                "00H"
            },
            DataException::NonidenticalNotationsWithTheSameName => {
                proof {
                    reveal_strlit("00J");
                }
                "00J"
            },
            DataException::NonidenticalUnparsedEntitiesWithTheSameName => {
                proof {
                    reveal_strlit("00K");
                }
                "00K"
            },
            DataException::NotAnXmlDocument => {
                proof {
                    reveal_strlit("00L");
                }
                "00L"
            },
            DataException::InvalidXmlDocument => {
                proof {
                    reveal_strlit("00M");
                }
                "00M"
            },
            DataException::InvalidXmlContent => {
                proof {
                    reveal_strlit("00N");
                }
                "00N"
            },
            DataException::IntervalValueOutOfRange => {
                proof {
                    reveal_strlit("00P");
                }
                "00P"
            },
            DataException::MultisetValueOverflow => {
                proof {
                    reveal_strlit("00Q");
                }
                "00Q"
            },
            DataException::XmlValueOverflow => {
                proof {
                    reveal_strlit("00R");
                }
                "00R"
            },
            DataException::InvalidComment => {
                proof {
                    reveal_strlit("00S");
                }
                "00S"
            },
            DataException::InvalidProcessingInstruction => {
                proof {
                    reveal_strlit("00T");
                }
                "00T"
            },
            DataException::NotAnXQueryDocumentNode => {
                proof {
                    reveal_strlit("00U");
                }
                "00U"
            },
            DataException::InvalidXQueryContextItem => {
                proof {
                    reveal_strlit("00V");
                }
                "00V"
            },
            DataException::XQuerySerializationError => {
                proof {
                    reveal_strlit("00W");
                }
                "00W"
            },
            DataException::InvalidIndicatorParameterValue => {
                proof {
                    reveal_strlit("010");
                }
                "010"
            },
            DataException::SubstringError => {
                proof {
                    reveal_strlit("011");
                }
                "011"
            },
            DataException::DivisionByZero => {
                proof {
                    reveal_strlit("012");
                }
                "012"
            },
            DataException::InvalidPrecedingOrFollowingSizeInWindowFunction => {
                proof {
                    reveal_strlit("013");
                }
                "013"
            },
            DataException::InvalidArgumentForNtileFunction => {
                proof {
                    reveal_strlit("014");
                }
                "014"
            },
            DataException::IntervalFieldOverflow => {
                proof {
                    reveal_strlit("015");
                }
                "015"
            },
            DataException::InvalidArgumentForNthValueFunction => {
                proof {
                    reveal_strlit("016");
                }
                "016"
            },
            DataException::InvalidDataSpecifiedForDatalink => {
                proof {
                    reveal_strlit("017");
                }
                "017"
            },
            DataException::InvalidCharacterValueForCast => {
                proof {
                    reveal_strlit("018");
                }
                "018"
            },
            DataException::InvalidEscapeCharacter => {
                proof {
                    reveal_strlit("019");
                }
                "019"
            },
            DataException::NullArgumentPassedToDatalinkConstructor => {
                proof {
                    reveal_strlit("01A");
                }
                "01A"
            },
            DataException::InvalidRegularExpression => {
                proof {
                    reveal_strlit("01B");
                }
                "01B"
            },
            DataException::NullRowNotPermittedInTable => {
                proof {
                    reveal_strlit("01C");
                }
                "01C"
            },
            DataException::DatalinkValueExceedsMaximumLength => {
                proof {
                    reveal_strlit("01D");
                }
                "01D"
            },
            DataException::InvalidArgumentForNaturalLogarithm => {
                proof {
                    reveal_strlit("01E");
                }
                "01E"
            },
            DataException::InvalidArgumentForPowerFunction => {
                proof {
                    reveal_strlit("01F");
                }
                "01F"
            },
            DataException::InvalidArgumentForWidthBucketFunction => {
                proof {
                    reveal_strlit("01G");
                }
                "01G"
            },
            DataException::InvalidRowVersion => {
                proof {
                    reveal_strlit("01H");
                }
                "01H"
            },
            DataException::XQuerySequenceCannotBeValidated => {
                proof {
                    reveal_strlit("01J");
                }
                "01J"
            },
            DataException::XQueryDocumentNodeCannotBeValidated => {
                proof {
                    reveal_strlit("01K");
                }
                "01K"
            },
            DataException::NoXmlSchemaFound => {
                proof {
                    reveal_strlit("01L");
                }
                "01L"
            },
            DataException::ElementNamespaceNotDeclared => {
                proof {
                    reveal_strlit("01M");
                }
                "01M"
            },
            DataException::GlobalElementNotDeclared => {
                proof {
                    reveal_strlit("01N");
                }
                "01N"
            },
            DataException::NoXmlElementWithTheSpecifiedQName => {
                proof {
                    reveal_strlit("01P");
                }
                "01P"
            },
            DataException::NoXmlElementWithTheSpecifiedNamespace => {
                proof {
                    reveal_strlit("01Q");
                }
                "01Q"
            },
            DataException::ValidationFailure => {
                proof {
                    reveal_strlit("01R");
                }
                "01R"
            },
            DataException::InvalidXQueryRegularExpression => {
                proof {
                    reveal_strlit("01S");
                }
                "01S"
            },
            DataException::InvalidXQueryOptionFlag => {
                proof {
                    reveal_strlit("01T");
                }
                "01T"
            },
            DataException::AttemptToReplaceAZeroLengthString => {
                proof {
                    reveal_strlit("01U");
                }
                "01U"
            },
            DataException::InvalidXQueryReplacementString => {
                proof {
                    reveal_strlit("01V");
                }
                "01V"
            },
            DataException::InvalidRowCountInFetchFirstClause => {
                proof {
                    reveal_strlit("01W");
                }
                "01W"
            },
            DataException::InvalidRowCountInResultOffsetClause => {
                proof {
                    reveal_strlit("01X");
                }
                "01X"
            },
            DataException::CharacterNotInRepertoire => {
                proof {
                    reveal_strlit("021");
                }
                "021"
            },
            DataException::IndicatorOverflow => {
                proof {
                    reveal_strlit("022");
                }
                "022"
            },
            DataException::InvalidParameterValue => {
                proof {
                    reveal_strlit("023");
                }
                "023"
            },
            DataException::UnterminatedCString => {
                proof {
                    reveal_strlit("024");
                }
                "024"
            },
            DataException::InvalidEscapeSequence => {
                proof {
                    reveal_strlit("025");
                }
                "025"
            },
            DataException::StringDataLengthMismatch => {
                proof {
                    reveal_strlit("026");
                }
                "026"
            },
            DataException::TrimError => {
                proof {
                    reveal_strlit("027");
                }
                "027"
            },
            DataException::NoncharacterInUcsString => {
                proof {
                    reveal_strlit("029");
                }
                "029"
            },
            DataException::NullValueInFieldReference => {
                proof {
                    reveal_strlit("02A");
                }
                "02A"
            },
            DataException::NullValueSubstitutedForMutatorSubjectParameter => {
                proof {
                    reveal_strlit("02D");
                }
                "02D"
            },
            DataException::ArrayElementError => {
                proof {
                    reveal_strlit("02E");
                }
                "02E"
            },
            DataException::ArrayDataRightTruncation => {
                proof {
                    reveal_strlit("02F");
                }
                "02F"
            },
            DataException::InvalidRepeatArgumentInASampleClause => {
                proof {
                    reveal_strlit("02G");
                }
                "02G"
            },
            DataException::InvalidSampleSize => {
                proof {
                    reveal_strlit("02H");
                }
                "02H"
            },
        }
    }

    /// Looks a subclass code up in this class's catalog. No subclass has
    /// the code `000`, so `000` (no subclass) also gives `None`.
    pub fn from_code(c: (char, char, char)) -> (r: Option<DataException>)
        ensures
            match r {
                Some(x) => x.spec_code() == c,
                None => forall|x: DataException| #[trigger] x.spec_code() != c,
            },
    {
        match c {
            ('0', '0', '1') => Some(DataException::StringDataRightTruncation),
            ('0', '0', '2') => Some(DataException::NullValueNoIndicatorParameter),
            ('0', '0', '3') => Some(DataException::NumericValueOutOfRange),
            ('0', '0', '4') => Some(DataException::NullValueNotAllowed),
            ('0', '0', '5') => Some(DataException::ErrorInAssignment),
            ('0', '0', '6') => Some(DataException::InvalidIntervalFormat),
            ('0', '0', '7') => Some(DataException::InvalidDatetimeFormat),
            ('0', '0', '8') => Some(DataException::DatetimeFieldOverflow),
            ('0', '0', '9') => Some(DataException::InvalidTimeZoneDisplacementValue),
            ('0', '0', 'B') => Some(DataException::EscapeCharacterConflict),
            ('0', '0', 'C') => Some(DataException::InvalidUseOfEscapeCharacter),
            ('0', '0', 'D') => Some(DataException::InvalidEscapeOctet),
            ('0', '0', 'E') => Some(DataException::NullValueInArrayTarget),
            ('0', '0', 'F') => Some(DataException::ZeroLengthCharacterString),
            ('0', '0', 'G') => Some(DataException::MostSpecificTypeMismatch),
            ('0', '0', 'H') => Some(DataException::SequenceGeneratorLimitExceeded),
            ('0', '0', 'J') => Some(DataException::NonidenticalNotationsWithTheSameName),
            ('0', '0', 'K') => Some(DataException::NonidenticalUnparsedEntitiesWithTheSameName),
            ('0', '0', 'L') => Some(DataException::NotAnXmlDocument),
            ('0', '0', 'M') => Some(DataException::InvalidXmlDocument),
            ('0', '0', 'N') => Some(DataException::InvalidXmlContent),
            ('0', '0', 'P') => Some(DataException::IntervalValueOutOfRange),
            ('0', '0', 'Q') => Some(DataException::MultisetValueOverflow),
            ('0', '0', 'R') => Some(DataException::XmlValueOverflow),
            ('0', '0', 'S') => Some(DataException::InvalidComment),
            ('0', '0', 'T') => Some(DataException::InvalidProcessingInstruction),
            ('0', '0', 'U') => Some(DataException::NotAnXQueryDocumentNode),
            ('0', '0', 'V') => Some(DataException::InvalidXQueryContextItem),
            ('0', '0', 'W') => Some(DataException::XQuerySerializationError),
            ('0', '1', '0') => Some(DataException::InvalidIndicatorParameterValue),
            ('0', '1', '1') => Some(DataException::SubstringError),
            ('0', '1', '2') => Some(DataException::DivisionByZero),
            ('0', '1', '3') => Some(DataException::InvalidPrecedingOrFollowingSizeInWindowFunction),
            ('0', '1', '4') => Some(DataException::InvalidArgumentForNtileFunction),
            ('0', '1', '5') => Some(DataException::IntervalFieldOverflow),
            ('0', '1', '6') => Some(DataException::InvalidArgumentForNthValueFunction),
            ('0', '1', '7') => Some(DataException::InvalidDataSpecifiedForDatalink),
            ('0', '1', '8') => Some(DataException::InvalidCharacterValueForCast),
            ('0', '1', '9') => Some(DataException::InvalidEscapeCharacter),
            ('0', '1', 'A') => Some(DataException::NullArgumentPassedToDatalinkConstructor),
            ('0', '1', 'B') => Some(DataException::InvalidRegularExpression),
            ('0', '1', 'C') => Some(DataException::NullRowNotPermittedInTable),
            ('0', '1', 'D') => Some(DataException::DatalinkValueExceedsMaximumLength),
            ('0', '1', 'E') => Some(DataException::InvalidArgumentForNaturalLogarithm),
            ('0', '1', 'F') => Some(DataException::InvalidArgumentForPowerFunction),
            ('0', '1', 'G') => Some(DataException::InvalidArgumentForWidthBucketFunction),
            ('0', '1', 'H') => Some(DataException::InvalidRowVersion),
            ('0', '1', 'J') => Some(DataException::XQuerySequenceCannotBeValidated),
            ('0', '1', 'K') => Some(DataException::XQueryDocumentNodeCannotBeValidated),
            ('0', '1', 'L') => Some(DataException::NoXmlSchemaFound),
            ('0', '1', 'M') => Some(DataException::ElementNamespaceNotDeclared),
            ('0', '1', 'N') => Some(DataException::GlobalElementNotDeclared),
            ('0', '1', 'P') => Some(DataException::NoXmlElementWithTheSpecifiedQName),
            ('0', '1', 'Q') => Some(DataException::NoXmlElementWithTheSpecifiedNamespace),
            ('0', '1', 'R') => Some(DataException::ValidationFailure),
            ('0', '1', 'S') => Some(DataException::InvalidXQueryRegularExpression),
            ('0', '1', 'T') => Some(DataException::InvalidXQueryOptionFlag),
            ('0', '1', 'U') => Some(DataException::AttemptToReplaceAZeroLengthString),
            ('0', '1', 'V') => Some(DataException::InvalidXQueryReplacementString),
            ('0', '1', 'W') => Some(DataException::InvalidRowCountInFetchFirstClause),
            ('0', '1', 'X') => Some(DataException::InvalidRowCountInResultOffsetClause),
            ('0', '2', '1') => Some(DataException::CharacterNotInRepertoire),
            ('0', '2', '2') => Some(DataException::IndicatorOverflow),
            ('0', '2', '3') => Some(DataException::InvalidParameterValue),
            ('0', '2', '4') => Some(DataException::UnterminatedCString),
            ('0', '2', '5') => Some(DataException::InvalidEscapeSequence),
            ('0', '2', '6') => Some(DataException::StringDataLengthMismatch),
            ('0', '2', '7') => Some(DataException::TrimError),
            ('0', '2', '9') => Some(DataException::NoncharacterInUcsString),
            ('0', '2', 'A') => Some(DataException::NullValueInFieldReference),
            ('0', '2', 'D') => Some(DataException::NullValueSubstitutedForMutatorSubjectParameter),
            ('0', '2', 'E') => Some(DataException::ArrayElementError),
            ('0', '2', 'F') => Some(DataException::ArrayDataRightTruncation),
            ('0', '2', 'G') => Some(DataException::InvalidRepeatArgumentInASampleClause),
            ('0', '2', 'H') => Some(DataException::InvalidSampleSize),
            _ => None,
        }
    }

    /// Distinct subclasses have distinct codes, none of them `000`.
    pub proof fn lemma_code_injective(a: DataException, b: DataException)
        ensures
            a.spec_code() != ('0', '0', '0'),
            a.spec_code() == b.spec_code() ==> a == b,
    {
        match a {
            DataException::StringDataRightTruncation => {},
            DataException::NullValueNoIndicatorParameter => {},
            DataException::NumericValueOutOfRange => {},
            DataException::NullValueNotAllowed => {},
            DataException::ErrorInAssignment => {},
            DataException::InvalidIntervalFormat => {},
            DataException::InvalidDatetimeFormat => {},
            DataException::DatetimeFieldOverflow => {},
            DataException::InvalidTimeZoneDisplacementValue => {},
            DataException::EscapeCharacterConflict => {},
            DataException::InvalidUseOfEscapeCharacter => {},
            DataException::InvalidEscapeOctet => {},
            DataException::NullValueInArrayTarget => {},
            DataException::ZeroLengthCharacterString => {},
            DataException::MostSpecificTypeMismatch => {},
            DataException::SequenceGeneratorLimitExceeded => {},
            DataException::NonidenticalNotationsWithTheSameName => {},
            DataException::NonidenticalUnparsedEntitiesWithTheSameName => {},
            DataException::NotAnXmlDocument => {},
            DataException::InvalidXmlDocument => {},
            DataException::InvalidXmlContent => {},
            DataException::IntervalValueOutOfRange => {},
            DataException::MultisetValueOverflow => {},
            DataException::XmlValueOverflow => {},
            DataException::InvalidComment => {},
            DataException::InvalidProcessingInstruction => {},
            DataException::NotAnXQueryDocumentNode => {},
            DataException::InvalidXQueryContextItem => {},
            DataException::XQuerySerializationError => {},
            DataException::InvalidIndicatorParameterValue => {},
            DataException::SubstringError => {},
            DataException::DivisionByZero => {},
            DataException::InvalidPrecedingOrFollowingSizeInWindowFunction => {},
            DataException::InvalidArgumentForNtileFunction => {},
            DataException::IntervalFieldOverflow => {},
            DataException::InvalidArgumentForNthValueFunction => {},
            DataException::InvalidDataSpecifiedForDatalink => {},
            DataException::InvalidCharacterValueForCast => {},
            DataException::InvalidEscapeCharacter => {},
            DataException::NullArgumentPassedToDatalinkConstructor => {},
            DataException::InvalidRegularExpression => {},
            DataException::NullRowNotPermittedInTable => {},
            DataException::DatalinkValueExceedsMaximumLength => {},
            DataException::InvalidArgumentForNaturalLogarithm => {},
            DataException::InvalidArgumentForPowerFunction => {},
            DataException::InvalidArgumentForWidthBucketFunction => {},
            DataException::InvalidRowVersion => {},
            DataException::XQuerySequenceCannotBeValidated => {},
            DataException::XQueryDocumentNodeCannotBeValidated => {},
            DataException::NoXmlSchemaFound => {},
            DataException::ElementNamespaceNotDeclared => {},
            DataException::GlobalElementNotDeclared => {},
            DataException::NoXmlElementWithTheSpecifiedQName => {},
            DataException::NoXmlElementWithTheSpecifiedNamespace => {},
            DataException::ValidationFailure => {},
            DataException::InvalidXQueryRegularExpression => {},
            DataException::InvalidXQueryOptionFlag => {},
            DataException::AttemptToReplaceAZeroLengthString => {},
            DataException::InvalidXQueryReplacementString => {},
            DataException::InvalidRowCountInFetchFirstClause => {},
            DataException::InvalidRowCountInResultOffsetClause => {},
            DataException::CharacterNotInRepertoire => {},
            DataException::IndicatorOverflow => {},
            DataException::InvalidParameterValue => {},
            DataException::UnterminatedCString => {},
            DataException::InvalidEscapeSequence => {},
            DataException::StringDataLengthMismatch => {},
            DataException::TrimError => {},
            DataException::NoncharacterInUcsString => {},
            DataException::NullValueInFieldReference => {},
            DataException::NullValueSubstitutedForMutatorSubjectParameter => {},
            DataException::ArrayElementError => {},
            DataException::ArrayDataRightTruncation => {},
            DataException::InvalidRepeatArgumentInASampleClause => {},
            DataException::InvalidSampleSize => {},
        }
    }
}

/// Subclasses of the `IntegrityConstraintViolation` class.
#[derive(Clone, Copy, Debug, PartialEq, Eq, Hash, Structural)]
pub enum IntegrityConstraintViolation {
    /// `001`: restrict violation.
    RestrictViolation,
}

impl IntegrityConstraintViolation {
    /// The three characters of this subclass's code.
    pub open spec fn spec_code(self) -> (char, char, char) {
        match self {
            IntegrityConstraintViolation::RestrictViolation => ('0', '0', '1'),
        }
    }

    /// The subclass code as text.
    pub fn as_str(&self) -> (r: &'static str)
        ensures
            spells3(r@, self.spec_code()),
    {
        match self {
            IntegrityConstraintViolation::RestrictViolation => {
                proof {
                    reveal_strlit("001");
                }
                "001"
            },
        }
    }

    /// Looks a subclass code up in this class's catalog. No subclass has
    /// the code `000`, so `000` (no subclass) also gives `None`.
    pub fn from_code(c: (char, char, char)) -> (r: Option<IntegrityConstraintViolation>)
        ensures
            match r {
                Some(x) => x.spec_code() == c,
                None => forall|x: IntegrityConstraintViolation| #[trigger] x.spec_code() != c,
            },
    {
        match c {
            ('0', '0', '1') => Some(IntegrityConstraintViolation::RestrictViolation),
            _ => None,
        }
    }

    /// Distinct subclasses have distinct codes, none of them `000`.
    pub proof fn lemma_code_injective(a: IntegrityConstraintViolation, b: IntegrityConstraintViolation)
        ensures
            a.spec_code() != ('0', '0', '0'),
            a.spec_code() == b.spec_code() ==> a == b,
    {
        match a {
            IntegrityConstraintViolation::RestrictViolation => {},
        }
    }
}

/// Subclasses of the `InvalidTransactionState` class.
#[derive(Clone, Copy, Debug, PartialEq, Eq, Hash, Structural)]
pub enum InvalidTransactionState {
    /// `001`: active SQL-transaction.
    ActiveSqlTransaction,
    /// `002`: branch transaction already active.
    BranchTransactionAlreadyActive,
    /// `003`: inappropriate access mode for branch transaction.
    InappropriateAccessModeForBranchTransaction,
    /// `004`: inappropriate isolation level for branch transaction.
    InappropriateIsolationLevelForBranchTransaction,
    /// `005`: no active SQL-transaction for branch transaction.
    NoActiveSqlTransactionForBranchTransaction,
    /// `006`: read-only SQL-transaction.
    ReadOnlySqlTransaction,
    /// `007`: schema and data statement mixing not supported.
    SchemaAndDataStatementMixingNotSupported,
    /// `008`: held cursor requires same isolation level.
    HeldCursorRequiresSameIsolationLevel,
}

impl InvalidTransactionState {
    /// The three characters of this subclass's code.
    pub open spec fn spec_code(self) -> (char, char, char) {
        match self {
            InvalidTransactionState::ActiveSqlTransaction => ('0', '0', '1'),
            InvalidTransactionState::BranchTransactionAlreadyActive => ('0', '0', '2'),
            InvalidTransactionState::InappropriateAccessModeForBranchTransaction => ('0', '0', '3'),
            InvalidTransactionState::InappropriateIsolationLevelForBranchTransaction => ('0', '0', '4'),
            InvalidTransactionState::NoActiveSqlTransactionForBranchTransaction => ('0', '0', '5'),
            InvalidTransactionState::ReadOnlySqlTransaction => ('0', '0', '6'),
            InvalidTransactionState::SchemaAndDataStatementMixingNotSupported => ('0', '0', '7'),
            InvalidTransactionState::HeldCursorRequiresSameIsolationLevel => ('0', '0', '8'),
        }
    }

    /// The subclass code as text.
    pub fn as_str(&self) -> (r: &'static str)
        ensures
            spells3(r@, self.spec_code()),
    {
        match self {
            InvalidTransactionState::ActiveSqlTransaction => {
                proof {
                    reveal_strlit("001");
                }
                "001"
            },
            InvalidTransactionState::BranchTransactionAlreadyActive => {
                proof {
                    reveal_strlit("002");
                }
                "002"
            },
            InvalidTransactionState::InappropriateAccessModeForBranchTransaction => {
                proof {
                    reveal_strlit("003");
                }
                "003"
            },
            InvalidTransactionState::InappropriateIsolationLevelForBranchTransaction => {
                proof {
                    reveal_strlit("004");
                }
                "004"
            },
            InvalidTransactionState::NoActiveSqlTransactionForBranchTransaction => {
                proof {
                    reveal_strlit("005");
                }
                "005"
            },
            InvalidTransactionState::ReadOnlySqlTransaction => {
                proof {
                    reveal_strlit("006");
                }
                "006"
            },
            InvalidTransactionState::SchemaAndDataStatementMixingNotSupported => {
                proof {
                    reveal_strlit("007");
                }
                "007"
            },
            InvalidTransactionState::HeldCursorRequiresSameIsolationLevel => {
                proof {
                    reveal_strlit("008");
                }
                "008"
            },
        }
    }

    /// Looks a subclass code up in this class's catalog. No subclass has
    /// the code `000`, so `000` (no subclass) also gives `None`.
    pub fn from_code(c: (char, char, char)) -> (r: Option<InvalidTransactionState>)
        ensures
            match r {
                Some(x) => x.spec_code() == c,
                None => forall|x: InvalidTransactionState| #[trigger] x.spec_code() != c,
            },
    {
        match c {
            ('0', '0', '1') => Some(InvalidTransactionState::ActiveSqlTransaction),
            ('0', '0', '2') => Some(InvalidTransactionState::BranchTransactionAlreadyActive),
            ('0', '0', '3') => Some(InvalidTransactionState::InappropriateAccessModeForBranchTransaction),
            ('0', '0', '4') => Some(InvalidTransactionState::InappropriateIsolationLevelForBranchTransaction),
            ('0', '0', '5') => Some(InvalidTransactionState::NoActiveSqlTransactionForBranchTransaction),
            ('0', '0', '6') => Some(InvalidTransactionState::ReadOnlySqlTransaction),
            ('0', '0', '7') => Some(InvalidTransactionState::SchemaAndDataStatementMixingNotSupported),
            ('0', '0', '8') => Some(InvalidTransactionState::HeldCursorRequiresSameIsolationLevel),
            _ => None,
        }
    }

    /// Distinct subclasses have distinct codes, none of them `000`.
    pub proof fn lemma_code_injective(a: InvalidTransactionState, b: InvalidTransactionState)
        ensures
            a.spec_code() != ('0', '0', '0'),
            a.spec_code() == b.spec_code() ==> a == b,
    {
        match a {
            InvalidTransactionState::ActiveSqlTransaction => {},
            InvalidTransactionState::BranchTransactionAlreadyActive => {},
            InvalidTransactionState::InappropriateAccessModeForBranchTransaction => {},
            InvalidTransactionState::InappropriateIsolationLevelForBranchTransaction => {},
            InvalidTransactionState::NoActiveSqlTransactionForBranchTransaction => {},
            InvalidTransactionState::ReadOnlySqlTransaction => {},
            InvalidTransactionState::SchemaAndDataStatementMixingNotSupported => {},
            InvalidTransactionState::HeldCursorRequiresSameIsolationLevel => {},
        }
    }
}

/// Subclasses of the `TriggeredDataChangeViolation` class.
#[derive(Clone, Copy, Debug, PartialEq, Eq, Hash, Structural)]
pub enum TriggeredDataChangeViolation {
    /// `001`: modify table modified by data change delta table.
    ModifyTableModifiedByDataChangeDeltaTable,
}

impl TriggeredDataChangeViolation {
    /// The three characters of this subclass's code.
    pub open spec fn spec_code(self) -> (char, char, char) {
        match self {
            TriggeredDataChangeViolation::ModifyTableModifiedByDataChangeDeltaTable => ('0', '0', '1'),
        }
    }

    /// The subclass code as text.
    pub fn as_str(&self) -> (r: &'static str)
        ensures
            spells3(r@, self.spec_code()),
    {
        match self {
            TriggeredDataChangeViolation::ModifyTableModifiedByDataChangeDeltaTable => {
                proof {
                    reveal_strlit("001");
                }
                "001"
            },
        }
    }

    /// Looks a subclass code up in this class's catalog. No subclass has
    /// the code `000`, so `000` (no subclass) also gives `None`.
    pub fn from_code(c: (char, char, char)) -> (r: Option<TriggeredDataChangeViolation>)
        ensures
            match r {
                Some(x) => x.spec_code() == c,
                None => forall|x: TriggeredDataChangeViolation| #[trigger] x.spec_code() != c,
            },
    {
        match c {
            ('0', '0', '1') => Some(TriggeredDataChangeViolation::ModifyTableModifiedByDataChangeDeltaTable),
            _ => None,
        }
    }

    /// Distinct subclasses have distinct codes, none of them `000`.
    pub proof fn lemma_code_injective(a: TriggeredDataChangeViolation, b: TriggeredDataChangeViolation)
        ensures
            a.spec_code() != ('0', '0', '0'),
            a.spec_code() == b.spec_code() ==> a == b,
    {
        match a {
            TriggeredDataChangeViolation::ModifyTableModifiedByDataChangeDeltaTable => {},
        }
    }
}

/// Subclasses of the `SqlRoutineException` class.
#[derive(Clone, Copy, Debug, PartialEq, Eq, Hash, Structural)]
pub enum SqlRoutineException {
    /// `002`: modifying SQL-data not permitted.
    ModifyingSqlDataNotPermitted,
    /// `003`: prohibited SQL-statement attempted.
    ProhibitedSqlStatementAttempted,
    /// `004`: reading SQL-data not permitted.
    ReadingSqlDataNotPermitted,
    /// `005`: function executed no return statement.
    FunctionExecutedNoReturnStatement,
}

impl SqlRoutineException {
    /// The three characters of this subclass's code.
    pub open spec fn spec_code(self) -> (char, char, char) {
        match self {
            SqlRoutineException::ModifyingSqlDataNotPermitted => ('0', '0', '2'),
            SqlRoutineException::ProhibitedSqlStatementAttempted => ('0', '0', '3'),
            SqlRoutineException::ReadingSqlDataNotPermitted => ('0', '0', '4'),
            SqlRoutineException::FunctionExecutedNoReturnStatement => ('0', '0', '5'),
        }
    }

    /// The subclass code as text.
    pub fn as_str(&self) -> (r: &'static str)
        ensures
            spells3(r@, self.spec_code()),
    {
        match self {
            SqlRoutineException::ModifyingSqlDataNotPermitted => {
                proof {
                    reveal_strlit("002");
                }
                "002"
            },
            SqlRoutineException::ProhibitedSqlStatementAttempted => {
                proof {
                    reveal_strlit("003");
                }
                "003"
            },
            SqlRoutineException::ReadingSqlDataNotPermitted => {
                proof {
                    reveal_strlit("004");
                }
                "004"
            },
            SqlRoutineException::FunctionExecutedNoReturnStatement => {
                proof {
                    reveal_strlit("005");
                }
                "005"
            },
        }
    }

    /// Looks a subclass code up in this class's catalog. No subclass has
    /// the code `000`, so `000` (no subclass) also gives `None`.
    pub fn from_code(c: (char, char, char)) -> (r: Option<SqlRoutineException>)
        ensures
            match r {
                Some(x) => x.spec_code() == c,
                None => forall|x: SqlRoutineException| #[trigger] x.spec_code() != c,
            },
    {
        match c {
            ('0', '0', '2') => Some(SqlRoutineException::ModifyingSqlDataNotPermitted),
            ('0', '0', '3') => Some(SqlRoutineException::ProhibitedSqlStatementAttempted),
            ('0', '0', '4') => Some(SqlRoutineException::ReadingSqlDataNotPermitted),
            ('0', '0', '5') => Some(SqlRoutineException::FunctionExecutedNoReturnStatement),
            _ => None,
        }
    }

    /// Distinct subclasses have distinct codes, none of them `000`.
    pub proof fn lemma_code_injective(a: SqlRoutineException, b: SqlRoutineException)
        ensures
            a.spec_code() != ('0', '0', '0'),
            a.spec_code() == b.spec_code() ==> a == b,
    {
        match a {
            SqlRoutineException::ModifyingSqlDataNotPermitted => {},
            SqlRoutineException::ProhibitedSqlStatementAttempted => {},
            SqlRoutineException::ReadingSqlDataNotPermitted => {},
            SqlRoutineException::FunctionExecutedNoReturnStatement => {},
        }
    }
}

/// Subclasses of the `CursorSensitivityException` class.
#[derive(Clone, Copy, Debug, PartialEq, Eq, Hash, Structural)]
pub enum CursorSensitivityException {
    /// `001`: request rejected.
    RequestRejected,
    /// `002`: request failed.
    RequestFailed,
}

impl CursorSensitivityException {
    /// The three characters of this subclass's code.
    pub open spec fn spec_code(self) -> (char, char, char) {
        match self {
            CursorSensitivityException::RequestRejected => ('0', '0', '1'),
            CursorSensitivityException::RequestFailed => ('0', '0', '2'),
        }
    }

    /// The subclass code as text.
    pub fn as_str(&self) -> (r: &'static str)
        ensures
            spells3(r@, self.spec_code()),
    {
        match self {
            CursorSensitivityException::RequestRejected => {
                proof {
                    reveal_strlit("001");
                }
                "001"
            },
            CursorSensitivityException::RequestFailed => {
                proof {
                    reveal_strlit("002");
                }
                "002"
            },
        }
    }

    /// Looks a subclass code up in this class's catalog. No subclass has
    /// the code `000`, so `000` (no subclass) also gives `None`.
    pub fn from_code(c: (char, char, char)) -> (r: Option<CursorSensitivityException>)
        ensures
            match r {
                Some(x) => x.spec_code() == c,
                None => forall|x: CursorSensitivityException| #[trigger] x.spec_code() != c,
            },
    {
        match c {
            ('0', '0', '1') => Some(CursorSensitivityException::RequestRejected),
            ('0', '0', '2') => Some(CursorSensitivityException::RequestFailed),
            _ => None,
        }
    }

    /// Distinct subclasses have distinct codes, none of them `000`.
    pub proof fn lemma_code_injective(a: CursorSensitivityException, b: CursorSensitivityException)
        ensures
            a.spec_code() != ('0', '0', '0'),
            a.spec_code() == b.spec_code() ==> a == b,
    {
        match a {
            CursorSensitivityException::RequestRejected => {},
            CursorSensitivityException::RequestFailed => {},
        }
    }
}

/// Subclasses of the `ExternalRoutineException` class.
#[derive(Clone, Copy, Debug, PartialEq, Eq, Hash, Structural)]
pub enum ExternalRoutineException {
    /// `001`: containing SQL not permitted.
    ContainingSqlNotPermitted,
    /// `002`: modifying SQL-data not permitted.
    ModifyingSqlDataNotPermitted,
    /// `003`: prohibited SQL-statement attempted.
    ProhibitedSqlStatementAttempted,
    /// `004`: reading SQL-data not permitted.
    ReadingSqlDataNotPermitted,
}

impl ExternalRoutineException {
    /// The three characters of this subclass's code.
    pub open spec fn spec_code(self) -> (char, char, char) {
        match self {
            ExternalRoutineException::ContainingSqlNotPermitted => ('0', '0', '1'),
            ExternalRoutineException::ModifyingSqlDataNotPermitted => ('0', '0', '2'),
            ExternalRoutineException::ProhibitedSqlStatementAttempted => ('0', '0', '3'),
            ExternalRoutineException::ReadingSqlDataNotPermitted => ('0', '0', '4'),
        }
    }

    /// The subclass code as text.
    pub fn as_str(&self) -> (r: &'static str)
        ensures
            spells3(r@, self.spec_code()),
    {
        match self {
            ExternalRoutineException::ContainingSqlNotPermitted => {
                proof {
                    reveal_strlit("001");
                }
                "001"
            },
            ExternalRoutineException::ModifyingSqlDataNotPermitted => {
                proof {
                    reveal_strlit("002");
                }
                "002"
            },
            ExternalRoutineException::ProhibitedSqlStatementAttempted => {
                proof {
                    reveal_strlit("003");
                }
                "003"
            },
            ExternalRoutineException::ReadingSqlDataNotPermitted => {
                proof {
                    reveal_strlit("004");
                }
                "004"
            },
        }
    }

    /// Looks a subclass code up in this class's catalog. No subclass has
    /// the code `000`, so `000` (no subclass) also gives `None`.
    pub fn from_code(c: (char, char, char)) -> (r: Option<ExternalRoutineException>)
        ensures
            match r {
                Some(x) => x.spec_code() == c,
                None => forall|x: ExternalRoutineException| #[trigger] x.spec_code() != c,
            },
    {
        match c {
            ('0', '0', '1') => Some(ExternalRoutineException::ContainingSqlNotPermitted),
            ('0', '0', '2') => Some(ExternalRoutineException::ModifyingSqlDataNotPermitted),
            ('0', '0', '3') => Some(ExternalRoutineException::ProhibitedSqlStatementAttempted),
            ('0', '0', '4') => Some(ExternalRoutineException::ReadingSqlDataNotPermitted),
            _ => None,
        }
    }

    /// Distinct subclasses have distinct codes, none of them `000`.
    pub proof fn lemma_code_injective(a: ExternalRoutineException, b: ExternalRoutineException)
        ensures
            a.spec_code() != ('0', '0', '0'),
            a.spec_code() == b.spec_code() ==> a == b,
    {
        match a {
            ExternalRoutineException::ContainingSqlNotPermitted => {},
            ExternalRoutineException::ModifyingSqlDataNotPermitted => {},
            ExternalRoutineException::ProhibitedSqlStatementAttempted => {},
            ExternalRoutineException::ReadingSqlDataNotPermitted => {},
        }
    }
}

/// Subclasses of the `ExternalRoutineInvocationException` class.
#[derive(Clone, Copy, Debug, PartialEq, Eq, Hash, Structural)]
pub enum ExternalRoutineInvocationException {
    /// `004`: null value not allowed.
    NullValueNotAllowed,
}

impl ExternalRoutineInvocationException {
    /// The three characters of this subclass's code.
    pub open spec fn spec_code(self) -> (char, char, char) {
        match self {
            ExternalRoutineInvocationException::NullValueNotAllowed => ('0', '0', '4'),
        }
    }

    /// The subclass code as text.
    pub fn as_str(&self) -> (r: &'static str)
        ensures
            spells3(r@, self.spec_code()),
    {
        match self {
            ExternalRoutineInvocationException::NullValueNotAllowed => {
                proof {
                    reveal_strlit("004");
                }
                "004"
            },
        }
    }

    /// Looks a subclass code up in this class's catalog. No subclass has
    /// the code `000`, so `000` (no subclass) also gives `None`.
    pub fn from_code(c: (char, char, char)) -> (r: Option<ExternalRoutineInvocationException>)
        ensures
            match r {
                Some(x) => x.spec_code() == c,
                None => forall|x: ExternalRoutineInvocationException| #[trigger] x.spec_code() != c,
            },
    {
        match c {
            ('0', '0', '4') => Some(ExternalRoutineInvocationException::NullValueNotAllowed),
            _ => None,
        }
    }

    /// Distinct subclasses have distinct codes, none of them `000`.
    pub proof fn lemma_code_injective(a: ExternalRoutineInvocationException, b: ExternalRoutineInvocationException)
        ensures
            a.spec_code() != ('0', '0', '0'),
            a.spec_code() == b.spec_code() ==> a == b,
    {
        match a {
            ExternalRoutineInvocationException::NullValueNotAllowed => {},
        }
    }
}

/// Subclasses of the `SavepointException` class.
#[derive(Clone, Copy, Debug, PartialEq, Eq, Hash, Structural)]
pub enum SavepointException {
    /// `001`: invalid specification.
    InvalidSpecification,
    /// `002`: too many.
    TooMany,
}

impl SavepointException {
    /// The three characters of this subclass's code.
    pub open spec fn spec_code(self) -> (char, char, char) {
        match self {
            SavepointException::InvalidSpecification => ('0', '0', '1'),
            SavepointException::TooMany => ('0', '0', '2'),
        }
    }

    /// The subclass code as text.
    pub fn as_str(&self) -> (r: &'static str)
        ensures
            spells3(r@, self.spec_code()),
    {
        match self {
            SavepointException::InvalidSpecification => {
                proof {
                    reveal_strlit("001");
                }
                "001"
            },
            SavepointException::TooMany => {
                proof {
                    reveal_strlit("002");
                }
                "002"
            },
        }
    }

    /// Looks a subclass code up in this class's catalog. No subclass has
    /// the code `000`, so `000` (no subclass) also gives `None`.
    pub fn from_code(c: (char, char, char)) -> (r: Option<SavepointException>)
        ensures
            match r {
                Some(x) => x.spec_code() == c,
                None => forall|x: SavepointException| #[trigger] x.spec_code() != c,
            },
    {
        match c {
            ('0', '0', '1') => Some(SavepointException::InvalidSpecification),
            ('0', '0', '2') => Some(SavepointException::TooMany),
            _ => None,
        }
    }

    /// Distinct subclasses have distinct codes, none of them `000`.
    pub proof fn lemma_code_injective(a: SavepointException, b: SavepointException)
        ensures
            a.spec_code() != ('0', '0', '0'),
            a.spec_code() == b.spec_code() ==> a == b,
    {
        match a {
            SavepointException::InvalidSpecification => {},
            SavepointException::TooMany => {},
        }
    }
}

/// Subclasses of the `TransactionRollback` class.
#[derive(Clone, Copy, Debug, PartialEq, Eq, Hash, Structural)]
pub enum TransactionRollback {
    /// `001`: serialization failure.
    SerializationFailure,
    /// `002`: integrity constraint violation.
    IntegrityConstraintViolation,
    /// `003`: statement completion unknown.
    StatementCompletionUnknown,
    /// `004`: triggered action exception.
    TriggeredActionException,
}

impl TransactionRollback {
    /// The three characters of this subclass's code.
    pub open spec fn spec_code(self) -> (char, char, char) {
        match self {
            TransactionRollback::SerializationFailure => ('0', '0', '1'),
            TransactionRollback::IntegrityConstraintViolation => ('0', '0', '2'),
            TransactionRollback::StatementCompletionUnknown => ('0', '0', '3'),
            TransactionRollback::TriggeredActionException => ('0', '0', '4'),
        }
    }

    /// The subclass code as text.
    pub fn as_str(&self) -> (r: &'static str)
        ensures
            spells3(r@, self.spec_code()),
    {
        match self {
            TransactionRollback::SerializationFailure => {
                proof {
                    reveal_strlit("001");
                }
                "001"
            },
            TransactionRollback::IntegrityConstraintViolation => {
                proof {
                    reveal_strlit("002");
                }
                "002"
            },
            TransactionRollback::StatementCompletionUnknown => {
                proof {
                    reveal_strlit("003");
                }
                "003"
            },
            TransactionRollback::TriggeredActionException => {
                proof {
                    reveal_strlit("004");
                }
                "004"
            },
        }
    }

    /// Looks a subclass code up in this class's catalog. No subclass has
    /// the code `000`, so `000` (no subclass) also gives `None`.
    pub fn from_code(c: (char, char, char)) -> (r: Option<TransactionRollback>)
        ensures
            match r {
                Some(x) => x.spec_code() == c,
                None => forall|x: TransactionRollback| #[trigger] x.spec_code() != c,
            },
    {
        match c {
            ('0', '0', '1') => Some(TransactionRollback::SerializationFailure),
            ('0', '0', '2') => Some(TransactionRollback::IntegrityConstraintViolation),
            ('0', '0', '3') => Some(TransactionRollback::StatementCompletionUnknown),
            ('0', '0', '4') => Some(TransactionRollback::TriggeredActionException),
            _ => None,
        }
    }

    /// Distinct subclasses have distinct codes, none of them `000`.
    pub proof fn lemma_code_injective(a: TransactionRollback, b: TransactionRollback)
        ensures
            a.spec_code() != ('0', '0', '0'),
            a.spec_code() == b.spec_code() ==> a == b,
    {
        match a {
            TransactionRollback::SerializationFailure => {},
            TransactionRollback::IntegrityConstraintViolation => {},
            TransactionRollback::StatementCompletionUnknown => {},
            TransactionRollback::TriggeredActionException => {},
        }
    }
}

/// Subclasses of the `OlbSpecificError` class.
#[derive(Clone, Copy, Debug, PartialEq, Eq, Hash, Structural)]
pub enum OlbSpecificError {
    /// `001`: invalid URL.
    InvalidUrl,
    /// `002`: invalid JAR name.
    InvalidJarName,
    /// `003`: invalid class deletion.
    InvalidClassDeletion,
    /// `005`: invalid replacement.
    InvalidReplacement,
    /// `00A`: attempt to replace uninstalled JAR.
    AttemptToReplaceUninstalledJar,
    /// `00B`: attempt to remove uninstalled JAR.
    AttemptToRemoveUninstalledJar,
    /// `00C`: invalid JAR removal.
    InvalidJarRemoval,
    /// `00D`: invalid path.
    InvalidPath,
    /// `00E`: self-referencing path.
    SelfReferencingPath,
    /// `102`: invalid JAR name in path.
    InvalidJarNameInPath,
    /// `103`: unresolved class name.
    UnresolvedClassName,
    /// `110`: unsupported feature.
    UnsupportedFeature,
    /// `120`: invalid class declaration.
    InvalidClassDeclaration,
    /// `121`: invalid column name.
    InvalidColumnName,
    /// `122`: invalid number of columns.
    InvalidNumberOfColumns,
    /// `130`: invalid profile state.
    InvalidProfileState,
}

impl OlbSpecificError {
    /// The three characters of this subclass's code.
    pub open spec fn spec_code(self) -> (char, char, char) {
        match self {
            OlbSpecificError::InvalidUrl => ('0', '0', '1'),
            OlbSpecificError::InvalidJarName => ('0', '0', '2'),
            OlbSpecificError::InvalidClassDeletion => ('0', '0', '3'),
            OlbSpecificError::InvalidReplacement => ('0', '0', '5'),
            OlbSpecificError::AttemptToReplaceUninstalledJar => ('0', '0', 'A'),
            OlbSpecificError::AttemptToRemoveUninstalledJar => ('0', '0', 'B'),
            OlbSpecificError::InvalidJarRemoval => ('0', '0', 'C'),
            OlbSpecificError::InvalidPath => ('0', '0', 'D'),
            OlbSpecificError::SelfReferencingPath => ('0', '0', 'E'),
            OlbSpecificError::InvalidJarNameInPath => ('1', '0', '2'),
            OlbSpecificError::UnresolvedClassName => ('1', '0', '3'),
            OlbSpecificError::UnsupportedFeature => ('1', '1', '0'),
            OlbSpecificError::InvalidClassDeclaration => ('1', '2', '0'),
            OlbSpecificError::InvalidColumnName => ('1', '2', '1'),
            OlbSpecificError::InvalidNumberOfColumns => ('1', '2', '2'),
            OlbSpecificError::InvalidProfileState => ('1', '3', '0'),
        }
    }

    /// The subclass code as text.
    pub fn as_str(&self) -> (r: &'static str)
        ensures
            spells3(r@, self.spec_code()),
    {
        match self {
            OlbSpecificError::InvalidUrl => {
                proof {
                    reveal_strlit("001");
                }
                "001"
            },
            OlbSpecificError::InvalidJarName => {
                proof {
                    reveal_strlit("002");
                }
                "002"
            },
            OlbSpecificError::InvalidClassDeletion => {
                proof {
                    reveal_strlit("003");
                }
                "003"
            },
            OlbSpecificError::InvalidReplacement => {
                proof {
                    reveal_strlit("005");
                }
                "005"
            },
            OlbSpecificError::AttemptToReplaceUninstalledJar => {
                proof {
                    reveal_strlit("00A");
                }
                "00A"
            },
            OlbSpecificError::AttemptToRemoveUninstalledJar => {
                proof {
                    reveal_strlit("00B");
                }
                "00B"
            },
            OlbSpecificError::InvalidJarRemoval => {
                proof {
                    reveal_strlit("00C");
                }
                "00C"
            },
            OlbSpecificError::InvalidPath => {
                proof {
                    reveal_strlit("00D");
                }
                "00D"
            },
            OlbSpecificError::SelfReferencingPath => {
                proof {
                    reveal_strlit("00E");
                }
                "00E"
            },
            OlbSpecificError::InvalidJarNameInPath => {
                proof {
                    reveal_strlit("102");
                }
                "102"
            },
            OlbSpecificError::UnresolvedClassName => {
                proof {
                    reveal_strlit("103");
                }
                "103"
            },
            OlbSpecificError::UnsupportedFeature => {
                proof {
                    reveal_strlit("110");
                }
                "110"
            },
            OlbSpecificError::InvalidClassDeclaration => {
                proof {
                    reveal_strlit("120");
                }
                "120"
            },
            OlbSpecificError::InvalidColumnName => {
                proof {
                    reveal_strlit("121");
                }
                "121"
            },
            OlbSpecificError::InvalidNumberOfColumns => {
                proof {
                    reveal_strlit("122");
                }
                "122"
            },
            OlbSpecificError::InvalidProfileState => {
                proof {
                    reveal_strlit("130");
                }
                "130"
            },
        }
    }

    /// Looks a subclass code up in this class's catalog. No subclass has
    /// the code `000`, so `000` (no subclass) also gives `None`.
    pub fn from_code(c: (char, char, char)) -> (r: Option<OlbSpecificError>)
        ensures
            match r {
                Some(x) => x.spec_code() == c,
                None => forall|x: OlbSpecificError| #[trigger] x.spec_code() != c,
            },
    {
        match c {
            ('0', '0', '1') => Some(OlbSpecificError::InvalidUrl),
            ('0', '0', '2') => Some(OlbSpecificError::InvalidJarName),
            ('0', '0', '3') => Some(OlbSpecificError::InvalidClassDeletion),
            ('0', '0', '5') => Some(OlbSpecificError::InvalidReplacement),
            ('0', '0', 'A') => Some(OlbSpecificError::AttemptToReplaceUninstalledJar),
            ('0', '0', 'B') => Some(OlbSpecificError::AttemptToRemoveUninstalledJar),
            ('0', '0', 'C') => Some(OlbSpecificError::InvalidJarRemoval),
            ('0', '0', 'D') => Some(OlbSpecificError::InvalidPath),
            ('0', '0', 'E') => Some(OlbSpecificError::SelfReferencingPath),
            ('1', '0', '2') => Some(OlbSpecificError::InvalidJarNameInPath),
            ('1', '0', '3') => Some(OlbSpecificError::UnresolvedClassName),
            ('1', '1', '0') => Some(OlbSpecificError::UnsupportedFeature),
            ('1', '2', '0') => Some(OlbSpecificError::InvalidClassDeclaration),
            ('1', '2', '1') => Some(OlbSpecificError::InvalidColumnName),
            ('1', '2', '2') => Some(OlbSpecificError::InvalidNumberOfColumns),
            ('1', '3', '0') => Some(OlbSpecificError::InvalidProfileState),
            _ => None,
        }
    }

    /// Distinct subclasses have distinct codes, none of them `000`.
    pub proof fn lemma_code_injective(a: OlbSpecificError, b: OlbSpecificError)
        ensures
            a.spec_code() != ('0', '0', '0'),
            a.spec_code() == b.spec_code() ==> a == b,
    {
        match a {
            OlbSpecificError::InvalidUrl => {},
            OlbSpecificError::InvalidJarName => {},
            OlbSpecificError::InvalidClassDeletion => {},
            OlbSpecificError::InvalidReplacement => {},
            OlbSpecificError::AttemptToReplaceUninstalledJar => {},
            OlbSpecificError::AttemptToRemoveUninstalledJar => {},
            OlbSpecificError::InvalidJarRemoval => {},
            OlbSpecificError::InvalidPath => {},
            OlbSpecificError::SelfReferencingPath => {},
            OlbSpecificError::InvalidJarNameInPath => {},
            OlbSpecificError::UnresolvedClassName => {},
            OlbSpecificError::UnsupportedFeature => {},
            OlbSpecificError::InvalidClassDeclaration => {},
            OlbSpecificError::InvalidColumnName => {},
            OlbSpecificError::InvalidNumberOfColumns => {},
            OlbSpecificError::InvalidProfileState => {},
        }
    }
}

/// Subclasses of the `DatalinkException` class.
#[derive(Clone, Copy, Debug, PartialEq, Eq, Hash, Structural)]
pub enum DatalinkException {
    /// `001`: external file not linked.
    ExternalFileNotLinked,
    /// `002`: external file already linked.
    ExternalFileAlreadyLinked,
    /// `003`: referenced file does not exist.
    ReferencedFileDoesNotExist,
    /// `004`: invalid write token.
    InvalidWriteToken,
    /// `005`: invalid DATALINK construction.
    InvalidDatalinkConstruction,
    /// `006`: invalid write permission for update.
    InvalidWritePermissionForUpdate,
    /// `007`: referenced file not valid.
    ReferencedFileNotValid,
}

impl DatalinkException {
    /// The three characters of this subclass's code.
    pub open spec fn spec_code(self) -> (char, char, char) {
        match self {
            DatalinkException::ExternalFileNotLinked => ('0', '0', '1'),
            DatalinkException::ExternalFileAlreadyLinked => ('0', '0', '2'),
            DatalinkException::ReferencedFileDoesNotExist => ('0', '0', '3'),
            DatalinkException::InvalidWriteToken => ('0', '0', '4'),
            DatalinkException::InvalidDatalinkConstruction => ('0', '0', '5'),
            DatalinkException::InvalidWritePermissionForUpdate => ('0', '0', '6'),
            DatalinkException::ReferencedFileNotValid => ('0', '0', '7'),
        }
    }

    /// The subclass code as text.
    pub fn as_str(&self) -> (r: &'static str)
        ensures
            spells3(r@, self.spec_code()),
    {
        match self {
            DatalinkException::ExternalFileNotLinked => {
                proof {
                    reveal_strlit("001");
                }
                "001"
            },
            DatalinkException::ExternalFileAlreadyLinked => {
                proof {
                    reveal_strlit("002");
                }
                "002"
            },
            DatalinkException::ReferencedFileDoesNotExist => {
                proof {
                    reveal_strlit("003");
                }
                "003"
            },
            DatalinkException::InvalidWriteToken => {
                proof {
                    reveal_strlit("004");
                }
                "004"
            },
            DatalinkException::InvalidDatalinkConstruction => {
                proof {
                    reveal_strlit("005");
                }
                "005"
            },
            DatalinkException::InvalidWritePermissionForUpdate => {
                proof {
                    reveal_strlit("006");
                }
                "006"
            },
            DatalinkException::ReferencedFileNotValid => {
                proof {
                    reveal_strlit("007");
                }
                "007"
            },
        }
    }

    /// Looks a subclass code up in this class's catalog. No subclass has
    /// the code `000`, so `000` (no subclass) also gives `None`.
    pub fn from_code(c: (char, char, char)) -> (r: Option<DatalinkException>)
        ensures
            match r {
                Some(x) => x.spec_code() == c,
                None => forall|x: DatalinkException| #[trigger] x.spec_code() != c,
            },
    {
        match c {
            ('0', '0', '1') => Some(DatalinkException::ExternalFileNotLinked),
            ('0', '0', '2') => Some(DatalinkException::ExternalFileAlreadyLinked),
            ('0', '0', '3') => Some(DatalinkException::ReferencedFileDoesNotExist),
            ('0', '0', '4') => Some(DatalinkException::InvalidWriteToken),
            ('0', '0', '5') => Some(DatalinkException::InvalidDatalinkConstruction),
            ('0', '0', '6') => Some(DatalinkException::InvalidWritePermissionForUpdate),
            ('0', '0', '7') => Some(DatalinkException::ReferencedFileNotValid),
            _ => None,
        }
    }

    /// Distinct subclasses have distinct codes, none of them `000`.
    pub proof fn lemma_code_injective(a: DatalinkException, b: DatalinkException)
        ensures
            a.spec_code() != ('0', '0', '0'),
            a.spec_code() == b.spec_code() ==> a == b,
    {
        match a {
            DatalinkException::ExternalFileNotLinked => {},
            DatalinkException::ExternalFileAlreadyLinked => {},
            DatalinkException::ReferencedFileDoesNotExist => {},
            DatalinkException::InvalidWriteToken => {},
            DatalinkException::InvalidDatalinkConstruction => {},
            DatalinkException::InvalidWritePermissionForUpdate => {},
            DatalinkException::ReferencedFileNotValid => {},
        }
    }
}

/// Subclasses of the `FdwSpecificCondition` class.
#[derive(Clone, Copy, Debug, PartialEq, Eq, Hash, Structural)]
pub enum FdwSpecificCondition {
    /// `001`: memory allocation error.
    MemoryAllocationError,
    /// `002`: dynamic parameter value needed.
    DynamicParameterValueNeeded,
    /// `004`: invalid data type.
    InvalidDataType,
    /// `005`: column name not found.
    ColumnNameNotFound,
    /// `006`: invalid data type descriptors.
    InvalidDataTypeDescriptors,
    /// `007`: invalid column name.
    InvalidColumnName,
    /// `008`: invalid column number.
    InvalidColumnNumber,
    /// `009`: invalid use of null pointer.
    InvalidUseOfNullPointer,
    /// `00A`: invalid string format.
    InvalidStringFormat,
    /// `00B`: invalid handle.
    InvalidHandle,
    /// `00C`: invalid option index.
    InvalidOptionIndex,
    /// `00D`: invalid option name.
    InvalidOptionName,
    /// `00J`: option name not found.
    OptionNameNotFound,
    /// `00K`: reply handle.
    ReplyHandle,
    /// `00L`: unable to create execution.
    UnableToCreateExecution,
    /// `00M`: unable to create reply.
    UnableToCreateReply,
    /// `00N`: unable to establish connection.
    UnableToEstablishConnection,
    /// `00P`: no schemas.
    NoSchemas,
    /// `00Q`: schema not found.
    SchemaNotFound,
    /// `00R`: table not found.
    TableNotFound,
    /// `010`: function sequence error.
    FunctionSequenceError,
    /// `014`: limit on number of handles exceeded.
    LimitOnNumberOfHandlesExceeded,
    /// `021`: inconsistent descriptor information.
    InconsistentDescriptorInformation,
    /// `024`: invalid attribute value.
    InvalidAttributeValue,
    /// `090`: invalid string length or buffer length.
    InvalidStringLengthOrBufferLength,
    /// `091`: invalid descriptor field identifier.
    InvalidDescriptorFieldIdentifier,
}

impl FdwSpecificCondition {
    /// The three characters of this subclass's code.
    pub open spec fn spec_code(self) -> (char, char, char) {
        match self {
            FdwSpecificCondition::MemoryAllocationError => ('0', '0', '1'),
            FdwSpecificCondition::DynamicParameterValueNeeded => ('0', '0', '2'),
            FdwSpecificCondition::InvalidDataType => ('0', '0', '4'),
            FdwSpecificCondition::ColumnNameNotFound => ('0', '0', '5'),
            FdwSpecificCondition::InvalidDataTypeDescriptors => ('0', '0', '6'),
            FdwSpecificCondition::InvalidColumnName => ('0', '0', '7'),
            FdwSpecificCondition::InvalidColumnNumber => ('0', '0', '8'),
            FdwSpecificCondition::InvalidUseOfNullPointer => ('0', '0', '9'),
            FdwSpecificCondition::InvalidStringFormat => ('0', '0', 'A'),
            FdwSpecificCondition::InvalidHandle => ('0', '0', 'B'),
            FdwSpecificCondition::InvalidOptionIndex => ('0', '0', 'C'),
            FdwSpecificCondition::InvalidOptionName => ('0', '0', 'D'),
            FdwSpecificCondition::OptionNameNotFound => ('0', '0', 'J'),
            FdwSpecificCondition::ReplyHandle => ('0', '0', 'K'),
            FdwSpecificCondition::UnableToCreateExecution => ('0', '0', 'L'),
            FdwSpecificCondition::UnableToCreateReply => ('0', '0', 'M'),
            FdwSpecificCondition::UnableToEstablishConnection => ('0', '0', 'N'),
            FdwSpecificCondition::NoSchemas => ('0', '0', 'P'),
            FdwSpecificCondition::SchemaNotFound => ('0', '0', 'Q'),
            FdwSpecificCondition::TableNotFound => ('0', '0', 'R'),
            FdwSpecificCondition::FunctionSequenceError => ('0', '1', '0'),
            FdwSpecificCondition::LimitOnNumberOfHandlesExceeded => ('0', '1', '4'),
            FdwSpecificCondition::InconsistentDescriptorInformation => ('0', '2', '1'),
            FdwSpecificCondition::InvalidAttributeValue => ('0', '2', '4'),
            FdwSpecificCondition::InvalidStringLengthOrBufferLength => ('0', '9', '0'),
            FdwSpecificCondition::InvalidDescriptorFieldIdentifier => ('0', '9', '1'),
        }
    }

    /// The subclass code as text.
    pub fn as_str(&self) -> (r: &'static str)
        ensures
            spells3(r@, self.spec_code()),
    {
        match self {
            FdwSpecificCondition::MemoryAllocationError => {
                proof {
                    reveal_strlit("001");
                }
                "001"
            },
            FdwSpecificCondition::DynamicParameterValueNeeded => {
                proof {
                    reveal_strlit("002");
                }
                "002"
            },
            FdwSpecificCondition::InvalidDataType => {
                proof {
                    reveal_strlit("004");
                }
                "004"
            },
            FdwSpecificCondition::ColumnNameNotFound => {
                proof {
                    reveal_strlit("005");
                }
                "005"
            },
            FdwSpecificCondition::InvalidDataTypeDescriptors => {
                proof {
                    reveal_strlit("006");
                }
                "006"
            },
            FdwSpecificCondition::InvalidColumnName => {
                proof {
                    reveal_strlit("007");
                }
                "007"
            },
            FdwSpecificCondition::InvalidColumnNumber => {
                proof {
                    reveal_strlit("008");
                }
                "008"
            },
            FdwSpecificCondition::InvalidUseOfNullPointer => {
                proof {
                    reveal_strlit("009");
                }
                "009"
            },
            FdwSpecificCondition::InvalidStringFormat => {
                proof {
                    reveal_strlit("00A");
                }
                "00A"
            },
            FdwSpecificCondition::InvalidHandle => {
                proof {
                    reveal_strlit("00B");
                }
                "00B"
            },
            FdwSpecificCondition::InvalidOptionIndex => {
                proof {
                    reveal_strlit("00C");
                }
                "00C"
            },
            FdwSpecificCondition::InvalidOptionName => {
                proof {
                    reveal_strlit("00D");
                }
                "00D"
            },
            FdwSpecificCondition::OptionNameNotFound => {
                proof {
                    reveal_strlit("00J");
                }
                "00J"
            },
            FdwSpecificCondition::ReplyHandle => {
                proof {
                    reveal_strlit("00K");
                }
                "00K"
            },
            FdwSpecificCondition::UnableToCreateExecution => {
                proof {
                    reveal_strlit("00L");
                }
                "00L"
            },
            FdwSpecificCondition::UnableToCreateReply => {
                proof {
                    reveal_strlit("00M");
                }
                "00M"
            },
            FdwSpecificCondition::UnableToEstablishConnection => {
                proof {
                    reveal_strlit("00N");
                }
                "00N"
            },
            FdwSpecificCondition::NoSchemas => {
                proof {
                    reveal_strlit("00P");
                }
                "00P"
            },
            FdwSpecificCondition::SchemaNotFound => {
                proof {
                    reveal_strlit("00Q");
                }
                "00Q"
            },
            FdwSpecificCondition::TableNotFound => {
                proof {
                    reveal_strlit("00R");
                }
                "00R"
            },
            FdwSpecificCondition::FunctionSequenceError => {
                proof {
                    reveal_strlit("010");
                }
                "010"
            },
            FdwSpecificCondition::LimitOnNumberOfHandlesExceeded => {
                proof {
                    reveal_strlit("014");
                }
                "014"
            },
            FdwSpecificCondition::InconsistentDescriptorInformation => {
                proof {
                    reveal_strlit("021");
                }
                "021"
            },
            FdwSpecificCondition::InvalidAttributeValue => {
                proof {
                    reveal_strlit("024");
                }
                "024"
            },
            FdwSpecificCondition::InvalidStringLengthOrBufferLength => {
                proof {
                    reveal_strlit("090");
                }
                "090"
            },
            FdwSpecificCondition::InvalidDescriptorFieldIdentifier => {
                proof {
                    reveal_strlit("091");
                }
                "091"
            },
        }
    }

    /// Looks a subclass code up in this class's catalog. No subclass has
    /// the code `000`, so `000` (no subclass) also gives `None`.
    pub fn from_code(c: (char, char, char)) -> (r: Option<FdwSpecificCondition>)
        ensures
            match r {
                Some(x) => x.spec_code() == c,
                None => forall|x: FdwSpecificCondition| #[trigger] x.spec_code() != c,
            },
    {
        match c {
            ('0', '0', '1') => Some(FdwSpecificCondition::MemoryAllocationError),
            ('0', '0', '2') => Some(FdwSpecificCondition::DynamicParameterValueNeeded),
            ('0', '0', '4') => Some(FdwSpecificCondition::InvalidDataType),
            ('0', '0', '5') => Some(FdwSpecificCondition::ColumnNameNotFound),
            ('0', '0', '6') => Some(FdwSpecificCondition::InvalidDataTypeDescriptors),
            ('0', '0', '7') => Some(FdwSpecificCondition::InvalidColumnName),
            ('0', '0', '8') => Some(FdwSpecificCondition::InvalidColumnNumber),
            ('0', '0', '9') => Some(FdwSpecificCondition::InvalidUseOfNullPointer),
            ('0', '0', 'A') => Some(FdwSpecificCondition::InvalidStringFormat),
            ('0', '0', 'B') => Some(FdwSpecificCondition::InvalidHandle),
            ('0', '0', 'C') => Some(FdwSpecificCondition::InvalidOptionIndex),
            ('0', '0', 'D') => Some(FdwSpecificCondition::InvalidOptionName),
            ('0', '0', 'J') => Some(FdwSpecificCondition::OptionNameNotFound),
            ('0', '0', 'K') => Some(FdwSpecificCondition::ReplyHandle),
            ('0', '0', 'L') => Some(FdwSpecificCondition::UnableToCreateExecution),
            ('0', '0', 'M') => Some(FdwSpecificCondition::UnableToCreateReply),
            ('0', '0', 'N') => Some(FdwSpecificCondition::UnableToEstablishConnection),
            ('0', '0', 'P') => Some(FdwSpecificCondition::NoSchemas),
            ('0', '0', 'Q') => Some(FdwSpecificCondition::SchemaNotFound),
            ('0', '0', 'R') => Some(FdwSpecificCondition::TableNotFound),
            ('0', '1', '0') => Some(FdwSpecificCondition::FunctionSequenceError),
            ('0', '1', '4') => Some(FdwSpecificCondition::LimitOnNumberOfHandlesExceeded),
            ('0', '2', '1') => Some(FdwSpecificCondition::InconsistentDescriptorInformation),
            ('0', '2', '4') => Some(FdwSpecificCondition::InvalidAttributeValue),
            ('0', '9', '0') => Some(FdwSpecificCondition::InvalidStringLengthOrBufferLength),
            ('0', '9', '1') => Some(FdwSpecificCondition::InvalidDescriptorFieldIdentifier),
            _ => None,
        }
    }

    /// Distinct subclasses have distinct codes, none of them `000`.
    pub proof fn lemma_code_injective(a: FdwSpecificCondition, b: FdwSpecificCondition)
        ensures
            a.spec_code() != ('0', '0', '0'),
            a.spec_code() == b.spec_code() ==> a == b,
    {
        match a {
            FdwSpecificCondition::MemoryAllocationError => {},
            FdwSpecificCondition::DynamicParameterValueNeeded => {},
            FdwSpecificCondition::InvalidDataType => {},
            FdwSpecificCondition::ColumnNameNotFound => {},
            FdwSpecificCondition::InvalidDataTypeDescriptors => {},
            FdwSpecificCondition::InvalidColumnName => {},
            FdwSpecificCondition::InvalidColumnNumber => {},
            FdwSpecificCondition::InvalidUseOfNullPointer => {},
            FdwSpecificCondition::InvalidStringFormat => {},
            FdwSpecificCondition::InvalidHandle => {},
            FdwSpecificCondition::InvalidOptionIndex => {},
            FdwSpecificCondition::InvalidOptionName => {},
            FdwSpecificCondition::OptionNameNotFound => {},
            FdwSpecificCondition::ReplyHandle => {},
            FdwSpecificCondition::UnableToCreateExecution => {},
            FdwSpecificCondition::UnableToCreateReply => {},
            FdwSpecificCondition::UnableToEstablishConnection => {},
            FdwSpecificCondition::NoSchemas => {},
            FdwSpecificCondition::SchemaNotFound => {},
            FdwSpecificCondition::TableNotFound => {},
            FdwSpecificCondition::FunctionSequenceError => {},
            FdwSpecificCondition::LimitOnNumberOfHandlesExceeded => {},
            FdwSpecificCondition::InconsistentDescriptorInformation => {},
            FdwSpecificCondition::InvalidAttributeValue => {},
            FdwSpecificCondition::InvalidStringLengthOrBufferLength => {},
            FdwSpecificCondition::InvalidDescriptorFieldIdentifier => {},
        }
    }
}

/// Subclasses of the `CliSpecificCondition` class.
#[derive(Clone, Copy, Debug, PartialEq, Eq, Hash, Structural)]
pub enum CliSpecificCondition {
    /// `001`: memory allocation error.
    MemoryAllocationError,
    /// `003`: invalid data type in application descriptor.
    InvalidDataTypeInApplicationDescriptor,
    /// `004`: invalid data type.
    InvalidDataType,
    /// `007`: associated statement is not prepared.
    AssociatedStatementIsNotPrepared,
    /// `008`: operation canceled.
    OperationCanceled,
    /// `009`: invalid use of null pointer.
    InvalidUseOfNullPointer,
    /// `010`: function sequence error.
    FunctionSequenceError,
    /// `011`: attribute cannot be set now.
    AttributeCannotBeSetNow,
    /// `012`: invalid transaction operation code.
    InvalidTransactionOperationCode,
    /// `013`: memory management error.
    MemoryManagementError,
    /// `014`: limit on number of handles exceeded.
    LimitOnNumberOfHandlesExceeded,
    /// `017`: invalid use of automatically-allocated descriptor handle.
    InvalidUseOfAutomaticallyAllocatedDescriptorHandle,
    /// `018`: server declined the cancellation request.
    ServerDeclinedTheCancellationRequest,
    /// `019`: non-string data cannot be sent in pieces.
    NonStringDataCannotBeSentInPieces,
    /// `020`: attempt to concatenate a null value.
    AttemptToConcatenateANullValue,
    /// `021`: inconsistent descriptor information.
    InconsistentDescriptorInformation,
    /// `024`: invalid attribute value.
    InvalidAttributeValue,
    /// `055`: non-string data cannot be used with string routine.
    NonStringDataCannotBeUsedWithStringRoutine,
    /// `090`: invalid string length or buffer length.
    InvalidStringLengthOrBufferLength,
    /// `091`: invalid descriptor field identifier.
    InvalidDescriptorFieldIdentifier,
    /// `092`: invalid attribute identifier.
    InvalidAttributeIdentifier,
    /// `093`: invalid datalink value.
    InvalidDatalinkValue,
    /// `095`: invalid FunctionId specified.
    InvalidFunctionIdSpecified,
    /// `096`: invalid information type.
    InvalidInformationType,
    /// `097`: column type out of range.
    ColumnTypeOutOfRange,
    /// `098`: scope out of range.
    ScopeOutOfRange,
    /// `099`: nullable type out of range.
    NullableTypeOutOfRange,
    /// `103`: invalid retrieval code.
    InvalidRetrievalCode,
    /// `104`: invalid LengthPrecision value.
    InvalidLengthPrecisionValue,
    /// `105`: invalid parameter mode.
    InvalidParameterMode,
    /// `106`: invalid fetch orientation.
    InvalidFetchOrientation,
    /// `107`: row value out of range.
    RowValueOutOfRange,
    /// `108`: invalid cursor position.
    InvalidCursorPosition,
    /// `C00`: optional feature not implemented.
    OptionalFeatureNotImplemented,
}

impl CliSpecificCondition {
    /// The three characters of this subclass's code.
    pub open spec fn spec_code(self) -> (char, char, char) {
        match self {
            CliSpecificCondition::MemoryAllocationError => ('0', '0', '1'),
            CliSpecificCondition::InvalidDataTypeInApplicationDescriptor => ('0', '0', '3'),
            CliSpecificCondition::InvalidDataType => ('0', '0', '4'),
            CliSpecificCondition::AssociatedStatementIsNotPrepared => ('0', '0', '7'),
            CliSpecificCondition::OperationCanceled => ('0', '0', '8'),
            CliSpecificCondition::InvalidUseOfNullPointer => ('0', '0', '9'),
            CliSpecificCondition::FunctionSequenceError => ('0', '1', '0'),
            CliSpecificCondition::AttributeCannotBeSetNow => ('0', '1', '1'),
            CliSpecificCondition::InvalidTransactionOperationCode => ('0', '1', '2'),
            CliSpecificCondition::MemoryManagementError => ('0', '1', '3'),
            CliSpecificCondition::LimitOnNumberOfHandlesExceeded => ('0', '1', '4'),
            CliSpecificCondition::InvalidUseOfAutomaticallyAllocatedDescriptorHandle => ('0', '1', '7'),
            CliSpecificCondition::ServerDeclinedTheCancellationRequest => ('0', '1', '8'),
            CliSpecificCondition::NonStringDataCannotBeSentInPieces => ('0', '1', '9'),
            CliSpecificCondition::AttemptToConcatenateANullValue => ('0', '2', '0'),
            CliSpecificCondition::InconsistentDescriptorInformation => ('0', '2', '1'),
            CliSpecificCondition::InvalidAttributeValue => ('0', '2', '4'),
            CliSpecificCondition::NonStringDataCannotBeUsedWithStringRoutine => ('0', '5', '5'),
            CliSpecificCondition::InvalidStringLengthOrBufferLength => ('0', '9', '0'),
            CliSpecificCondition::InvalidDescriptorFieldIdentifier => ('0', '9', '1'),
            CliSpecificCondition::InvalidAttributeIdentifier => ('0', '9', '2'),
            CliSpecificCondition::InvalidDatalinkValue => ('0', '9', '3'),
            CliSpecificCondition::InvalidFunctionIdSpecified => ('0', '9', '5'),
            CliSpecificCondition::InvalidInformationType => ('0', '9', '6'),
            CliSpecificCondition::ColumnTypeOutOfRange => ('0', '9', '7'),
            CliSpecificCondition::ScopeOutOfRange => ('0', '9', '8'),
            CliSpecificCondition::NullableTypeOutOfRange => ('0', '9', '9'),
            CliSpecificCondition::InvalidRetrievalCode => ('1', '0', '3'),
            CliSpecificCondition::InvalidLengthPrecisionValue => ('1', '0', '4'),
            CliSpecificCondition::InvalidParameterMode => ('1', '0', '5'),
            CliSpecificCondition::InvalidFetchOrientation => ('1', '0', '6'),
            CliSpecificCondition::RowValueOutOfRange => ('1', '0', '7'),
            CliSpecificCondition::InvalidCursorPosition => ('1', '0', '8'),
            CliSpecificCondition::OptionalFeatureNotImplemented => ('C', '0', '0'),
        }
    }

    /// The subclass code as text.
    pub fn as_str(&self) -> (r: &'static str)
        ensures
            spells3(r@, self.spec_code()),
    {
        match self {
            CliSpecificCondition::MemoryAllocationError => {
                proof {
                    reveal_strlit("001");
                }
                "001"
            },
            CliSpecificCondition::InvalidDataTypeInApplicationDescriptor => {
                proof {
                    reveal_strlit("003");
                }
                "003"
            },
            CliSpecificCondition::InvalidDataType => {
                proof {
                    reveal_strlit("004");
                }
                "004"
            },
            CliSpecificCondition::AssociatedStatementIsNotPrepared => {
                proof {
                    reveal_strlit("007");
                }
                "007"
            },
            CliSpecificCondition::OperationCanceled => {
                proof {
                    reveal_strlit("008");
                }
                "008"
            },
            CliSpecificCondition::InvalidUseOfNullPointer => {
                proof {
                    reveal_strlit("009");
                }
                "009"
            },
            CliSpecificCondition::FunctionSequenceError => {
                proof {
                    reveal_strlit("010");
                }
                "010"
            },
            CliSpecificCondition::AttributeCannotBeSetNow => {
                proof {
                    reveal_strlit("011");
                }
                "011"
            },
            CliSpecificCondition::InvalidTransactionOperationCode => {
                proof {
                    reveal_strlit("012");
                }
                "012"
            },
            CliSpecificCondition::MemoryManagementError => {
                proof {
                    reveal_strlit("013");
                }
                "013"
            },
            CliSpecificCondition::LimitOnNumberOfHandlesExceeded => {
                proof {
                    reveal_strlit("014");
                }
                "014"
            },
            CliSpecificCondition::InvalidUseOfAutomaticallyAllocatedDescriptorHandle => {
                proof {
                    reveal_strlit("017");
                }
                "017"
            },
            CliSpecificCondition::ServerDeclinedTheCancellationRequest => {
                proof {
                    reveal_strlit("018");
                }
                "018"
            },
            CliSpecificCondition::NonStringDataCannotBeSentInPieces => {
                proof {
                    reveal_strlit("019");
                }
                "019"
            },
            CliSpecificCondition::AttemptToConcatenateANullValue => {
                proof {
                    reveal_strlit("020");
                }
                "020"
            },
            CliSpecificCondition::InconsistentDescriptorInformation => {
                proof {
                    reveal_strlit("021");
                }
                "021"
            },
            CliSpecificCondition::InvalidAttributeValue => {
                proof {
                    reveal_strlit("024");
                }
                "024"
            },
            CliSpecificCondition::NonStringDataCannotBeUsedWithStringRoutine => {
                proof {
                    reveal_strlit("055");
                }
                "055"
            },
            CliSpecificCondition::InvalidStringLengthOrBufferLength => {
                proof {
                    reveal_strlit("090");
                }
                "090"
            },
            CliSpecificCondition::InvalidDescriptorFieldIdentifier => {
                proof {
                    reveal_strlit("091");
                }
                "091"
            },
            CliSpecificCondition::InvalidAttributeIdentifier => {
                proof {
                    reveal_strlit("092");
                }
                "092"
            },
            CliSpecificCondition::InvalidDatalinkValue => {
                proof {
                    reveal_strlit("093");
                }
                "093"
            },
            CliSpecificCondition::InvalidFunctionIdSpecified => {
                proof {
                    reveal_strlit("095");
                }
                "095"
            },
            CliSpecificCondition::InvalidInformationType => {
                proof {
                    reveal_strlit("096");
                }
                "096"
            },
            CliSpecificCondition::ColumnTypeOutOfRange => {
                proof {
                    reveal_strlit("097");
                }
                "097"
            },
            CliSpecificCondition::ScopeOutOfRange => {
                proof {
                    reveal_strlit("098");
                }
                "098"
            },
            CliSpecificCondition::NullableTypeOutOfRange => {
                proof {
                    reveal_strlit("099");
                }
                "099"
            },
            CliSpecificCondition::InvalidRetrievalCode => {
                proof {
                    reveal_strlit("103");
                }
                "103"
            },
            CliSpecificCondition::InvalidLengthPrecisionValue => {
                proof {
                    reveal_strlit("104");
                }
                "104"
            },
            CliSpecificCondition::InvalidParameterMode => {
                proof {
                    reveal_strlit("105");
                }
                "105"
            },
            CliSpecificCondition::InvalidFetchOrientation => {
                proof {
                    reveal_strlit("106");
                }
                "106"
            },
            CliSpecificCondition::RowValueOutOfRange => {
                proof {
                    reveal_strlit("107");
                }
                "107"
            },
            CliSpecificCondition::InvalidCursorPosition => {
                proof {
                    reveal_strlit("108");
                }
                "108"
            },
            CliSpecificCondition::OptionalFeatureNotImplemented => {
                proof {
                    reveal_strlit("C00");
                }
                "C00"
            },
        }
    }

    /// Looks a subclass code up in this class's catalog. No subclass has
    /// the code `000`, so `000` (no subclass) also gives `None`.
    pub fn from_code(c: (char, char, char)) -> (r: Option<CliSpecificCondition>)
        ensures
            match r {
                Some(x) => x.spec_code() == c,
                None => forall|x: CliSpecificCondition| #[trigger] x.spec_code() != c,
            },
    {
        match c {
            ('0', '0', '1') => Some(CliSpecificCondition::MemoryAllocationError),
            ('0', '0', '3') => Some(CliSpecificCondition::InvalidDataTypeInApplicationDescriptor),
            ('0', '0', '4') => Some(CliSpecificCondition::InvalidDataType),
            ('0', '0', '7') => Some(CliSpecificCondition::AssociatedStatementIsNotPrepared),
            ('0', '0', '8') => Some(CliSpecificCondition::OperationCanceled),
            ('0', '0', '9') => Some(CliSpecificCondition::InvalidUseOfNullPointer),
            ('0', '1', '0') => Some(CliSpecificCondition::FunctionSequenceError),
            ('0', '1', '1') => Some(CliSpecificCondition::AttributeCannotBeSetNow),
            ('0', '1', '2') => Some(CliSpecificCondition::InvalidTransactionOperationCode),
            ('0', '1', '3') => Some(CliSpecificCondition::MemoryManagementError),
            ('0', '1', '4') => Some(CliSpecificCondition::LimitOnNumberOfHandlesExceeded),
            ('0', '1', '7') => Some(CliSpecificCondition::InvalidUseOfAutomaticallyAllocatedDescriptorHandle),
            ('0', '1', '8') => Some(CliSpecificCondition::ServerDeclinedTheCancellationRequest),
            ('0', '1', '9') => Some(CliSpecificCondition::NonStringDataCannotBeSentInPieces),
            ('0', '2', '0') => Some(CliSpecificCondition::AttemptToConcatenateANullValue),
            ('0', '2', '1') => Some(CliSpecificCondition::InconsistentDescriptorInformation),
            ('0', '2', '4') => Some(CliSpecificCondition::InvalidAttributeValue),
            ('0', '5', '5') => Some(CliSpecificCondition::NonStringDataCannotBeUsedWithStringRoutine),
            ('0', '9', '0') => Some(CliSpecificCondition::InvalidStringLengthOrBufferLength),
            ('0', '9', '1') => Some(CliSpecificCondition::InvalidDescriptorFieldIdentifier),
            ('0', '9', '2') => Some(CliSpecificCondition::InvalidAttributeIdentifier),
            ('0', '9', '3') => Some(CliSpecificCondition::InvalidDatalinkValue),
            ('0', '9', '5') => Some(CliSpecificCondition::InvalidFunctionIdSpecified),
            ('0', '9', '6') => Some(CliSpecificCondition::InvalidInformationType),
            ('0', '9', '7') => Some(CliSpecificCondition::ColumnTypeOutOfRange),
            ('0', '9', '8') => Some(CliSpecificCondition::ScopeOutOfRange),
            ('0', '9', '9') => Some(CliSpecificCondition::NullableTypeOutOfRange),
            ('1', '0', '3') => Some(CliSpecificCondition::InvalidRetrievalCode),
            ('1', '0', '4') => Some(CliSpecificCondition::InvalidLengthPrecisionValue),
            ('1', '0', '5') => Some(CliSpecificCondition::InvalidParameterMode),
            ('1', '0', '6') => Some(CliSpecificCondition::InvalidFetchOrientation),
            ('1', '0', '7') => Some(CliSpecificCondition::RowValueOutOfRange),
            ('1', '0', '8') => Some(CliSpecificCondition::InvalidCursorPosition),
            ('C', '0', '0') => Some(CliSpecificCondition::OptionalFeatureNotImplemented),
            _ => None,
        }
    }

    /// Distinct subclasses have distinct codes, none of them `000`.
    pub proof fn lemma_code_injective(a: CliSpecificCondition, b: CliSpecificCondition)
        ensures
            a.spec_code() != ('0', '0', '0'),
            a.spec_code() == b.spec_code() ==> a == b,
    {
        match a {
            CliSpecificCondition::MemoryAllocationError => {},
            CliSpecificCondition::InvalidDataTypeInApplicationDescriptor => {},
            CliSpecificCondition::InvalidDataType => {},
            CliSpecificCondition::AssociatedStatementIsNotPrepared => {},
            CliSpecificCondition::OperationCanceled => {},
            CliSpecificCondition::InvalidUseOfNullPointer => {},
            CliSpecificCondition::FunctionSequenceError => {},
            CliSpecificCondition::AttributeCannotBeSetNow => {},
            CliSpecificCondition::InvalidTransactionOperationCode => {},
            CliSpecificCondition::MemoryManagementError => {},
            CliSpecificCondition::LimitOnNumberOfHandlesExceeded => {},
            CliSpecificCondition::InvalidUseOfAutomaticallyAllocatedDescriptorHandle => {},
            CliSpecificCondition::ServerDeclinedTheCancellationRequest => {},
            CliSpecificCondition::NonStringDataCannotBeSentInPieces => {},
            CliSpecificCondition::AttemptToConcatenateANullValue => {},
            CliSpecificCondition::InconsistentDescriptorInformation => {},
            CliSpecificCondition::InvalidAttributeValue => {},
            CliSpecificCondition::NonStringDataCannotBeUsedWithStringRoutine => {},
            CliSpecificCondition::InvalidStringLengthOrBufferLength => {},
            CliSpecificCondition::InvalidDescriptorFieldIdentifier => {},
            CliSpecificCondition::InvalidAttributeIdentifier => {},
            CliSpecificCondition::InvalidDatalinkValue => {},
            CliSpecificCondition::InvalidFunctionIdSpecified => {},
            CliSpecificCondition::InvalidInformationType => {},
            CliSpecificCondition::ColumnTypeOutOfRange => {},
            CliSpecificCondition::ScopeOutOfRange => {},
            CliSpecificCondition::NullableTypeOutOfRange => {},
            CliSpecificCondition::InvalidRetrievalCode => {},
            CliSpecificCondition::InvalidLengthPrecisionValue => {},
            CliSpecificCondition::InvalidParameterMode => {},
            CliSpecificCondition::InvalidFetchOrientation => {},
            CliSpecificCondition::RowValueOutOfRange => {},
            CliSpecificCondition::InvalidCursorPosition => {},
            CliSpecificCondition::OptionalFeatureNotImplemented => {},
        }
    }
}

/// Subclasses of the `RemoteDatabaseAccess` class.
#[derive(Clone, Copy, Debug, PartialEq, Eq, Hash, Structural)]
pub enum RemoteDatabaseAccess {
    /// `080`: attribute not permitted.
    AttributeNotPermitted,
    /// `081`: authentication failure.
    AuthenticationFailure,
    /// `082`: duplicate request ident.
    DuplicateRequestIdent,
    /// `083`: encoding not supported.
    EncodingNotSupported,
    /// `084`: feature not supported, multiple server transactions.
    FeatureNotSupportedMultipleServerTransactions,
    /// `085`: invalid attribute type.
    InvalidAttributeType,
    /// `086`: invalid fetch count.
    InvalidFetchCount,
    /// `087`: invalid message type.
    InvalidMessageType,
    /// `088`: invalid operation sequence.
    InvalidOperationSequence,
    /// `089`: invalid transaction operation code.
    InvalidTransactionOperationCode,
    /// `090`: mismatch between descriptor and row.
    MismatchBetweenDescriptorAndRow,
    /// `091`: no connection handle available.
    NoConnectionHandleAvailable,
    /// `092`: number of values does not match number of item descriptors.
    NumberOfValuesDoesNotMatchNumberOfItemDescriptors,
    /// `093`: transaction cannot commit.
    TransactionCannotCommit,
    /// `094`: transaction state unknown.
    TransactionStateUnknown,
    /// `095`: transport failure.
    TransportFailure,
    /// `096`: unexpected parameter descriptor.
    UnexpectedParameterDescriptor,
    /// `097`: unexpected row descriptor.
    UnexpectedRowDescriptor,
    /// `098`: unexpected rows.
    UnexpectedRows,
    /// `099`: version not supported.
    VersionNotSupported,
}

impl RemoteDatabaseAccess {
    /// The three characters of this subclass's code.
    pub open spec fn spec_code(self) -> (char, char, char) {
        match self {
            RemoteDatabaseAccess::AttributeNotPermitted => ('0', '8', '0'),
            RemoteDatabaseAccess::AuthenticationFailure => ('0', '8', '1'),
            RemoteDatabaseAccess::DuplicateRequestIdent => ('0', '8', '2'),
            RemoteDatabaseAccess::EncodingNotSupported => ('0', '8', '3'),
            RemoteDatabaseAccess::FeatureNotSupportedMultipleServerTransactions => ('0', '8', '4'),
            RemoteDatabaseAccess::InvalidAttributeType => ('0', '8', '5'),
            RemoteDatabaseAccess::InvalidFetchCount => ('0', '8', '6'),
            RemoteDatabaseAccess::InvalidMessageType => ('0', '8', '7'),
            RemoteDatabaseAccess::InvalidOperationSequence => ('0', '8', '8'),
            RemoteDatabaseAccess::InvalidTransactionOperationCode => ('0', '8', '9'),
            RemoteDatabaseAccess::MismatchBetweenDescriptorAndRow => ('0', '9', '0'),
            RemoteDatabaseAccess::NoConnectionHandleAvailable => ('0', '9', '1'),
            RemoteDatabaseAccess::NumberOfValuesDoesNotMatchNumberOfItemDescriptors => ('0', '9', '2'),
            RemoteDatabaseAccess::TransactionCannotCommit => ('0', '9', '3'),
            RemoteDatabaseAccess::TransactionStateUnknown => ('0', '9', '4'),
            RemoteDatabaseAccess::TransportFailure => ('0', '9', '5'),
            RemoteDatabaseAccess::UnexpectedParameterDescriptor => ('0', '9', '6'),
            RemoteDatabaseAccess::UnexpectedRowDescriptor => ('0', '9', '7'),
            RemoteDatabaseAccess::UnexpectedRows => ('0', '9', '8'),
            RemoteDatabaseAccess::VersionNotSupported => ('0', '9', '9'),
        }
    }

    /// The subclass code as text.
    pub fn as_str(&self) -> (r: &'static str)
        ensures
            spells3(r@, self.spec_code()),
    {
        match self {
            RemoteDatabaseAccess::AttributeNotPermitted => {
                proof {
                    reveal_strlit("080");
                }
                "080"
            },
            RemoteDatabaseAccess::AuthenticationFailure => {
                proof {
                    reveal_strlit("081");
                }
                "081"
            },
            RemoteDatabaseAccess::DuplicateRequestIdent => {
                proof {
                    reveal_strlit("082");
                }
                "082"
            },
            RemoteDatabaseAccess::EncodingNotSupported => {
                proof {
                    reveal_strlit("083");
                }
                "083"
            },
            RemoteDatabaseAccess::FeatureNotSupportedMultipleServerTransactions => {
                proof {
                    reveal_strlit("084");
                }
                "084"
            },
            RemoteDatabaseAccess::InvalidAttributeType => {
                proof {
                    reveal_strlit("085");
                }
                "085"
            },
            RemoteDatabaseAccess::InvalidFetchCount => {
                proof {
                    reveal_strlit("086");
                }
                "086"
            },
            RemoteDatabaseAccess::InvalidMessageType => {
                proof {
                    reveal_strlit("087");
                }
                "087"
            },
            RemoteDatabaseAccess::InvalidOperationSequence => {
                proof {
                    reveal_strlit("088");
                }
                "088"
            },
            RemoteDatabaseAccess::InvalidTransactionOperationCode => {
                proof {
                    reveal_strlit("089");
                }
                "089"
            },
            RemoteDatabaseAccess::MismatchBetweenDescriptorAndRow => {
                proof {
                    reveal_strlit("090");
                }
                "090"
            },
            RemoteDatabaseAccess::NoConnectionHandleAvailable => {
                proof {
                    reveal_strlit("091");
                }
                "091"
            },
            RemoteDatabaseAccess::NumberOfValuesDoesNotMatchNumberOfItemDescriptors => {
                proof {
                    reveal_strlit("092");
                }
                "092"
            },
            RemoteDatabaseAccess::TransactionCannotCommit => {
                proof {
                    reveal_strlit("093");
                }
                "093"
            },
            RemoteDatabaseAccess::TransactionStateUnknown => {
                proof {
                    reveal_strlit("094");
                }
                "094"
            },
            RemoteDatabaseAccess::TransportFailure => {
                proof {
                    reveal_strlit("095");
                }
                "095"
            },
            RemoteDatabaseAccess::UnexpectedParameterDescriptor => {
                proof {
                    reveal_strlit("096");
                }
                "096"
            },
            RemoteDatabaseAccess::UnexpectedRowDescriptor => {
                proof {
                    reveal_strlit("097");
                }
                "097"
            },
            RemoteDatabaseAccess::UnexpectedRows => {
                proof {
                    reveal_strlit("098");
                }
                "098"
            },
            RemoteDatabaseAccess::VersionNotSupported => {
                proof {
                    reveal_strlit("099");
                }
                "099"
            },
        }
    }

    /// Looks a subclass code up in this class's catalog. No subclass has
    /// the code `000`, so `000` (no subclass) also gives `None`.
    pub fn from_code(c: (char, char, char)) -> (r: Option<RemoteDatabaseAccess>)
        ensures
            match r {
                Some(x) => x.spec_code() == c,
                None => forall|x: RemoteDatabaseAccess| #[trigger] x.spec_code() != c,
            },
    {
        match c {
            ('0', '8', '0') => Some(RemoteDatabaseAccess::AttributeNotPermitted),
            ('0', '8', '1') => Some(RemoteDatabaseAccess::AuthenticationFailure),
            ('0', '8', '2') => Some(RemoteDatabaseAccess::DuplicateRequestIdent),
            ('0', '8', '3') => Some(RemoteDatabaseAccess::EncodingNotSupported),
            ('0', '8', '4') => Some(RemoteDatabaseAccess::FeatureNotSupportedMultipleServerTransactions),
            ('0', '8', '5') => Some(RemoteDatabaseAccess::InvalidAttributeType),
            ('0', '8', '6') => Some(RemoteDatabaseAccess::InvalidFetchCount),
            ('0', '8', '7') => Some(RemoteDatabaseAccess::InvalidMessageType),
            ('0', '8', '8') => Some(RemoteDatabaseAccess::InvalidOperationSequence),
            ('0', '8', '9') => Some(RemoteDatabaseAccess::InvalidTransactionOperationCode),
            ('0', '9', '0') => Some(RemoteDatabaseAccess::MismatchBetweenDescriptorAndRow),
            ('0', '9', '1') => Some(RemoteDatabaseAccess::NoConnectionHandleAvailable),
            ('0', '9', '2') => Some(RemoteDatabaseAccess::NumberOfValuesDoesNotMatchNumberOfItemDescriptors),
            ('0', '9', '3') => Some(RemoteDatabaseAccess::TransactionCannotCommit),
            ('0', '9', '4') => Some(RemoteDatabaseAccess::TransactionStateUnknown),
            ('0', '9', '5') => Some(RemoteDatabaseAccess::TransportFailure),
            ('0', '9', '6') => Some(RemoteDatabaseAccess::UnexpectedParameterDescriptor),
            ('0', '9', '7') => Some(RemoteDatabaseAccess::UnexpectedRowDescriptor),
            ('0', '9', '8') => Some(RemoteDatabaseAccess::UnexpectedRows),
            ('0', '9', '9') => Some(RemoteDatabaseAccess::VersionNotSupported),
            _ => None,
        }
    }

    /// Distinct subclasses have distinct codes, none of them `000`.
    pub proof fn lemma_code_injective(a: RemoteDatabaseAccess, b: RemoteDatabaseAccess)
        ensures
            a.spec_code() != ('0', '0', '0'),
            a.spec_code() == b.spec_code() ==> a == b,
    {
        match a {
            RemoteDatabaseAccess::AttributeNotPermitted => {},
            RemoteDatabaseAccess::AuthenticationFailure => {},
            RemoteDatabaseAccess::DuplicateRequestIdent => {},
            RemoteDatabaseAccess::EncodingNotSupported => {},
            RemoteDatabaseAccess::FeatureNotSupportedMultipleServerTransactions => {},
            RemoteDatabaseAccess::InvalidAttributeType => {},
            RemoteDatabaseAccess::InvalidFetchCount => {},
            RemoteDatabaseAccess::InvalidMessageType => {},
            RemoteDatabaseAccess::InvalidOperationSequence => {},
            RemoteDatabaseAccess::InvalidTransactionOperationCode => {},
            RemoteDatabaseAccess::MismatchBetweenDescriptorAndRow => {},
            RemoteDatabaseAccess::NoConnectionHandleAvailable => {},
            RemoteDatabaseAccess::NumberOfValuesDoesNotMatchNumberOfItemDescriptors => {},
            RemoteDatabaseAccess::TransactionCannotCommit => {},
            RemoteDatabaseAccess::TransactionStateUnknown => {},
            RemoteDatabaseAccess::TransportFailure => {},
            RemoteDatabaseAccess::UnexpectedParameterDescriptor => {},
            RemoteDatabaseAccess::UnexpectedRowDescriptor => {},
            RemoteDatabaseAccess::UnexpectedRows => {},
            RemoteDatabaseAccess::VersionNotSupported => {},
        }
    }
}

} // verus!
