//! The errors that reading a document can return.

use vstd::prelude::*;

verus! {

/// The primitive representation that a codec looks for in a cell.
#[derive(Clone, Copy, Debug, PartialEq, Eq, Structural)]
pub enum Kind {
    Bool,
    BigInt,
    String,
}

/// Why a value read from the document could not be decoded.
#[derive(Debug)]
pub enum YrsWrapperError {
    /// The cell holds a value of another kind than the codec expected.
    WrongKind { expected: Kind },
    /// The kind matched, but the number stands for no value of the type.
    ValueOutOfRange,
    /// A required field has no entry in its map node.
    MissingAttribute { attr: String },
    /// The element at `index` of a collection failed to decode.
    ElementDecode { index: u32, cause: Box<YrsWrapperError> },
    /// The entry under the name `field` of a record failed to decode.
    FieldDecode { field: String, cause: Box<YrsWrapperError> },
    /// A record was expected where the cell holds no map node.
    ExpectedMap,
    /// A collection was expected where the cell holds no array node.
    ExpectedArray,
    /// A text was expected where the cell holds no text node.
    ExpectedText,
}

/// The mathematical content of a [`YrsWrapperError`].
pub enum ErrorView {
    WrongKind { expected: Kind },
    ValueOutOfRange,
    MissingAttribute { attr: Seq<char> },
    ElementDecode { index: nat, cause: Box<ErrorView> },
    FieldDecode { field: Seq<char>, cause: Box<ErrorView> },
    ExpectedMap,
    ExpectedArray,
    ExpectedText,
}

pub type YrsResult<T> = Result<T, YrsWrapperError>;

impl YrsWrapperError {
    /// The error with its strings and numbers as mathematical values.
    pub open spec fn model(&self) -> ErrorView
        decreases self,
    {
        match self {
            YrsWrapperError::WrongKind { expected } => ErrorView::WrongKind { expected: *expected },
            YrsWrapperError::ValueOutOfRange => ErrorView::ValueOutOfRange,
            YrsWrapperError::MissingAttribute { attr } => ErrorView::MissingAttribute {
                attr: attr@,
            },
            YrsWrapperError::ElementDecode { index, cause } => ErrorView::ElementDecode {
                index: *index as nat,
                cause: Box::new(cause.model()),
            },
            YrsWrapperError::FieldDecode { field, cause } => ErrorView::FieldDecode {
                field: field@,
                cause: Box::new(cause.model()),
            },
            YrsWrapperError::ExpectedMap => ErrorView::ExpectedMap,
            YrsWrapperError::ExpectedArray => ErrorView::ExpectedArray,
            YrsWrapperError::ExpectedText => ErrorView::ExpectedText,
        }
    }
}

impl View for YrsWrapperError {
    type V = ErrorView;

    open spec fn view(&self) -> ErrorView {
        self.model()
    }
}

impl Kind {
    /// The name of the representation, as it is shown to a user.
    pub fn name(&self) -> (s: &'static str)
        ensures
            s@ == self.spec_name(),
    {
        match self {
            Kind::Bool => "Bool",
            Kind::BigInt => "BigInt",
            Kind::String => "String",
        }
    }

    pub open spec fn spec_name(&self) -> Seq<char> {
        match self {
            Kind::Bool => "Bool"@,
            Kind::BigInt => "BigInt"@,
            Kind::String => "String"@,
        }
    }
}

impl YrsWrapperError {
    /// Computes [`ErrorView::field`].
    pub fn field(&self) -> (r: Option<&str>)
        ensures
            match self@.field() {
                Some(name) => r matches Some(x) && x@ == name,
                None => r is None,
            },
    {
        match self {
            YrsWrapperError::MissingAttribute { attr } => Some(attr.as_str()),
            YrsWrapperError::FieldDecode { field, .. } => Some(field.as_str()),
            _ => None,
        }
    }

    /// The error at the bottom of a chain of failed elements and fields.
    pub fn root_cause(&self) -> (e: &YrsWrapperError)
        ensures
            e@ == self@.root_cause(),
            !(e@ is ElementDecode),
            !(e@ is FieldDecode),
        decreases self,
    {
        match self {
            YrsWrapperError::ElementDecode { cause, .. } => cause.root_cause(),
            YrsWrapperError::FieldDecode { cause, .. } => cause.root_cause(),
            _ => self,
        }
    }
}

impl ErrorView {
    /// The field of a record in which the failure lies, where the error
    /// names one: the field that is missing, or the field whose entry did
    /// not decode.
    pub open spec fn field(self) -> Option<Seq<char>> {
        match self {
            ErrorView::MissingAttribute { attr } => Some(attr),
            ErrorView::FieldDecode { field, .. } => Some(field),
            _ => None,
        }
    }

    pub open spec fn root_cause(self) -> ErrorView
        decreases self,
    {
        match self {
            ErrorView::ElementDecode { cause, .. } => cause.root_cause(),
            ErrorView::FieldDecode { cause, .. } => cause.root_cause(),
            _ => self,
        }
    }
}

} // verus!
