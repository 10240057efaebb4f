//! The EN-16931 toolkit: the semantic model of an electronic invoice, its UBL binding,
//! the profiles, and the binding of a validator's answer to the nodes of a document.

pub mod text;
pub mod error;

pub use error::Error;
pub mod namespace;
pub mod ubl;

pub use namespace::{Abbreviations, Namespace};
pub mod cii;
pub mod path;

pub use path::{Path, Step};
pub mod context;
pub mod location;

pub use context::{Context, Segment};
pub use location::{Location, LocationStep, Normalizer, RawNamespace};
pub mod table;
pub mod trace;
pub mod token;
pub mod binding;
pub use binding::Binding;
pub mod decimal;
pub use decimal::Decimal;
pub mod values;
pub use values::{CountryCode, Currency, Date, EmailAddress, NonEmptyString, Percentage, Quantity, Unit, Url};
pub mod invoice_type;
pub use invoice_type::{DocumentKind, InvoiceType};
pub mod term;
pub use term::Term;
pub mod profile;
pub use profile::Profile;
pub mod exemption_reason;
pub use exemption_reason::ExemptionReason;
pub mod vat;
pub use vat::{VatCategory, VatTreatment};
pub mod pricing;
pub use pricing::{Adjustment, Amount, LineAdjustment, Price, Reason};
pub mod model;
pub use model::{
    BinaryObject, Buyer, Classification, Contact, CreditTransfer, Delivery, Details, DirectDebit,
    ElectronicAddress, Invoice, InvoiceLine, Item, ItemAttribute, ItemReference, LegalEntity,
    LocationReference, Note, ObjectReference, OperationalEntity, Payee, PaymentCard,
    PaymentInstructions, Period, PostalAddress, PrecedingInvoice, Seller, SupportingDocument,
    TaxRepresentative, VatIdentifier, AccountingTotal, VatBreakdown, VatPoint,
};
pub mod format;
pub use format::{Cii, Deserializable, Format, Serializable, Ubl};
pub mod laws;
pub mod xml;
pub mod serializer;
pub use serializer::Serializer;
pub mod ubl_write;
pub mod cii_write;
pub mod document;
pub use document::{Document, DocumentBuilder, Entry, InvalidDocument, Problem, RawReport, Report, Severity, Target, ValidDocument};
pub mod parser;
pub use parser::Parser;
pub mod reading;
pub mod ubl_read;
pub mod cii_read;
