//! The fields of an attendee record, and the rules by which a workbook
//! layout yields the value of each.

use vstd::prelude::*;
use crate::date::DatePattern;

verus! {

/// The number of fields of an attendee record.
pub const FIELD_COUNT: usize = 60;

/// A field of the attendee record. The order of the variants is the order
/// of the fields in a record.
#[derive(Clone, Copy, Debug, PartialEq, Eq, Hash, Structural)]
pub enum Field {
    Capid,
    Rank,
    LastName,
    FirstName,
    MiddleName,
    Unit,
    Gender,
    DateOfBirth,
    AgeAtStart,
    AgeAtEnd,
    Height,
    Weight,
    ShirtSize,
    MemberType,
    Expiration,
    MemberStatus,
    HomePhone,
    CellPhone,
    Email,
    Address1,
    Address2,
    City,
    State,
    ZipCode,
    RegistrationStatus,
    IsStaff,
    RegistrationId,
    Comments,
    EmergencyContactName,
    EmergencyContactNumber,
    CadetParentPhonePrimary,
    CadetParentPhoneSecondary,
    CadetParentEmailPrimary,
    CadetParentEmailSecondary,
    UnitCommanderName,
    UnitCommanderEmail,
    WingCommanderName,
    WingCommanderEmail,
    IsPilot,
    DlExpiration,
    LastEncampment,
    HighestORide,
    AircraftGroundHandling,
    WingRunner,
    OrmBasic,
    OrmIntermediate,
    CpptExpiration,
    MonthlySafety,
    Icut,
    Is100,
    Is700,
    Capt116,
    Capt117Part1,
    Capt117Part2,
    Capt117Part3,
    FirstAid,
    InvoiceId,
    PricesId,
    InvoiceStatus,
    RegisteredBy,
}

/// What kind of value a field holds.
#[derive(Clone, Copy, Debug, PartialEq, Eq, Structural)]
pub enum FieldKind {
    Text,
    Integer,
    Flag,
    Date,
}

impl Field {
    /// The position of the field in a record.
    pub open spec fn spec_index(self) -> usize {
        match self {
            Field::Capid => 0,
            Field::Rank => 1,
            Field::LastName => 2,
            Field::FirstName => 3,
            Field::MiddleName => 4,
            Field::Unit => 5,
            Field::Gender => 6,
            Field::DateOfBirth => 7,
            Field::AgeAtStart => 8,
            Field::AgeAtEnd => 9,
            Field::Height => 10,
            Field::Weight => 11,
            Field::ShirtSize => 12,
            Field::MemberType => 13,
            Field::Expiration => 14,
            Field::MemberStatus => 15,
            Field::HomePhone => 16,
            Field::CellPhone => 17,
            Field::Email => 18,
            Field::Address1 => 19,
            Field::Address2 => 20,
            Field::City => 21,
            Field::State => 22,
            Field::ZipCode => 23,
            Field::RegistrationStatus => 24,
            Field::IsStaff => 25,
            Field::RegistrationId => 26,
            Field::Comments => 27,
            Field::EmergencyContactName => 28,
            Field::EmergencyContactNumber => 29,
            Field::CadetParentPhonePrimary => 30,
            Field::CadetParentPhoneSecondary => 31,
            Field::CadetParentEmailPrimary => 32,
            Field::CadetParentEmailSecondary => 33,
            Field::UnitCommanderName => 34,
            Field::UnitCommanderEmail => 35,
            Field::WingCommanderName => 36,
            Field::WingCommanderEmail => 37,
            Field::IsPilot => 38,
            Field::DlExpiration => 39,
            Field::LastEncampment => 40,
            Field::HighestORide => 41,
            Field::AircraftGroundHandling => 42,
            Field::WingRunner => 43,
            Field::OrmBasic => 44,
            Field::OrmIntermediate => 45,
            Field::CpptExpiration => 46,
            Field::MonthlySafety => 47,
            Field::Icut => 48,
            Field::Is100 => 49,
            Field::Is700 => 50,
            Field::Capt116 => 51,
            Field::Capt117Part1 => 52,
            Field::Capt117Part2 => 53,
            Field::Capt117Part3 => 54,
            Field::FirstAid => 55,
            Field::InvoiceId => 56,
            Field::PricesId => 57,
            Field::InvoiceStatus => 58,
            Field::RegisteredBy => 59,
        }
    }

    /// The position of the field in a record.
    #[verifier::when_used_as_spec(spec_index)]
    pub fn index(self) -> (index: usize)
        ensures
            index == self.spec_index(),
            index < FIELD_COUNT,
    {
        match self {
            Field::Capid => 0,
            Field::Rank => 1,
            Field::LastName => 2,
            Field::FirstName => 3,
            Field::MiddleName => 4,
            Field::Unit => 5,
            Field::Gender => 6,
            Field::DateOfBirth => 7,
            Field::AgeAtStart => 8,
            Field::AgeAtEnd => 9,
            Field::Height => 10,
            Field::Weight => 11,
            Field::ShirtSize => 12,
            Field::MemberType => 13,
            Field::Expiration => 14,
            Field::MemberStatus => 15,
            Field::HomePhone => 16,
            Field::CellPhone => 17,
            Field::Email => 18,
            Field::Address1 => 19,
            Field::Address2 => 20,
            Field::City => 21,
            Field::State => 22,
            Field::ZipCode => 23,
            Field::RegistrationStatus => 24,
            Field::IsStaff => 25,
            Field::RegistrationId => 26,
            Field::Comments => 27,
            Field::EmergencyContactName => 28,
            Field::EmergencyContactNumber => 29,
            Field::CadetParentPhonePrimary => 30,
            Field::CadetParentPhoneSecondary => 31,
            Field::CadetParentEmailPrimary => 32,
            Field::CadetParentEmailSecondary => 33,
            Field::UnitCommanderName => 34,
            Field::UnitCommanderEmail => 35,
            Field::WingCommanderName => 36,
            Field::WingCommanderEmail => 37,
            Field::IsPilot => 38,
            Field::DlExpiration => 39,
            Field::LastEncampment => 40,
            Field::HighestORide => 41,
            Field::AircraftGroundHandling => 42,
            Field::WingRunner => 43,
            Field::OrmBasic => 44,
            Field::OrmIntermediate => 45,
            Field::CpptExpiration => 46,
            Field::MonthlySafety => 47,
            Field::Icut => 48,
            Field::Is100 => 49,
            Field::Is700 => 50,
            Field::Capt116 => 51,
            Field::Capt117Part1 => 52,
            Field::Capt117Part2 => 53,
            Field::Capt117Part3 => 54,
            Field::FirstAid => 55,
            Field::InvoiceId => 56,
            Field::PricesId => 57,
            Field::InvoiceStatus => 58,
            Field::RegisteredBy => 59,
        }
    }

    /// The field at a position of a record. Positions past the last field
    /// give the last field.
    pub open spec fn spec_at(index: usize) -> Field {
        match index {
            0 => Field::Capid,
            1 => Field::Rank,
            2 => Field::LastName,
            3 => Field::FirstName,
            4 => Field::MiddleName,
            5 => Field::Unit,
            6 => Field::Gender,
            7 => Field::DateOfBirth,
            8 => Field::AgeAtStart,
            9 => Field::AgeAtEnd,
            10 => Field::Height,
            11 => Field::Weight,
            12 => Field::ShirtSize,
            13 => Field::MemberType,
            14 => Field::Expiration,
            15 => Field::MemberStatus,
            16 => Field::HomePhone,
            17 => Field::CellPhone,
            18 => Field::Email,
            19 => Field::Address1,
            20 => Field::Address2,
            21 => Field::City,
            22 => Field::State,
            23 => Field::ZipCode,
            24 => Field::RegistrationStatus,
            25 => Field::IsStaff,
            26 => Field::RegistrationId,
            27 => Field::Comments,
            28 => Field::EmergencyContactName,
            29 => Field::EmergencyContactNumber,
            30 => Field::CadetParentPhonePrimary,
            31 => Field::CadetParentPhoneSecondary,
            32 => Field::CadetParentEmailPrimary,
            33 => Field::CadetParentEmailSecondary,
            34 => Field::UnitCommanderName,
            35 => Field::UnitCommanderEmail,
            36 => Field::WingCommanderName,
            37 => Field::WingCommanderEmail,
            38 => Field::IsPilot,
            39 => Field::DlExpiration,
            40 => Field::LastEncampment,
            41 => Field::HighestORide,
            42 => Field::AircraftGroundHandling,
            43 => Field::WingRunner,
            44 => Field::OrmBasic,
            45 => Field::OrmIntermediate,
            46 => Field::CpptExpiration,
            47 => Field::MonthlySafety,
            48 => Field::Icut,
            49 => Field::Is100,
            50 => Field::Is700,
            51 => Field::Capt116,
            52 => Field::Capt117Part1,
            53 => Field::Capt117Part2,
            54 => Field::Capt117Part3,
            55 => Field::FirstAid,
            56 => Field::InvoiceId,
            57 => Field::PricesId,
            58 => Field::InvoiceStatus,
            _ => Field::RegisteredBy,
        }
    }

    /// The field at a position of a record. Positions past the last field
    /// give the last field.
    #[verifier::when_used_as_spec(spec_at)]
    pub fn at(index: usize) -> (field: Field)
        ensures
            field == Field::spec_at(index),
            index < FIELD_COUNT ==> field.spec_index() == index,
    {
        match index {
            0 => Field::Capid,
            1 => Field::Rank,
            2 => Field::LastName,
            3 => Field::FirstName,
            4 => Field::MiddleName,
            5 => Field::Unit,
            6 => Field::Gender,
            7 => Field::DateOfBirth,
            8 => Field::AgeAtStart,
            9 => Field::AgeAtEnd,
            10 => Field::Height,
            11 => Field::Weight,
            12 => Field::ShirtSize,
            13 => Field::MemberType,
            14 => Field::Expiration,
            15 => Field::MemberStatus,
            16 => Field::HomePhone,
            17 => Field::CellPhone,
            18 => Field::Email,
            19 => Field::Address1,
            20 => Field::Address2,
            21 => Field::City,
            22 => Field::State,
            23 => Field::ZipCode,
            24 => Field::RegistrationStatus,
            25 => Field::IsStaff,
            26 => Field::RegistrationId,
            27 => Field::Comments,
            28 => Field::EmergencyContactName,
            29 => Field::EmergencyContactNumber,
            30 => Field::CadetParentPhonePrimary,
            31 => Field::CadetParentPhoneSecondary,
            32 => Field::CadetParentEmailPrimary,
            33 => Field::CadetParentEmailSecondary,
            34 => Field::UnitCommanderName,
            35 => Field::UnitCommanderEmail,
            36 => Field::WingCommanderName,
            37 => Field::WingCommanderEmail,
            38 => Field::IsPilot,
            39 => Field::DlExpiration,
            40 => Field::LastEncampment,
            41 => Field::HighestORide,
            42 => Field::AircraftGroundHandling,
            43 => Field::WingRunner,
            44 => Field::OrmBasic,
            45 => Field::OrmIntermediate,
            46 => Field::CpptExpiration,
            47 => Field::MonthlySafety,
            48 => Field::Icut,
            49 => Field::Is100,
            50 => Field::Is700,
            51 => Field::Capt116,
            52 => Field::Capt117Part1,
            53 => Field::Capt117Part2,
            54 => Field::Capt117Part3,
            55 => Field::FirstAid,
            56 => Field::InvoiceId,
            57 => Field::PricesId,
            58 => Field::InvoiceStatus,
            _ => Field::RegisteredBy,
        }
    }

    /// The kind of value that the field holds.
    pub open spec fn spec_kind(self) -> FieldKind {
        match self {
            Field::Capid
            | Field::AgeAtStart
            | Field::AgeAtEnd
            | Field::Height
            | Field::Weight
            | Field::RegistrationId
            | Field::HighestORide
            | Field::InvoiceId
            | Field::PricesId => FieldKind::Integer,
            Field::IsStaff
            | Field::IsPilot => FieldKind::Flag,
            Field::DateOfBirth
            | Field::Expiration
            | Field::DlExpiration
            | Field::LastEncampment
            | Field::AircraftGroundHandling
            | Field::WingRunner
            | Field::OrmBasic
            | Field::OrmIntermediate
            | Field::CpptExpiration
            | Field::MonthlySafety
            | Field::Icut
            | Field::Is100
            | Field::Is700
            | Field::Capt116
            | Field::Capt117Part1
            | Field::Capt117Part2
            | Field::Capt117Part3
            | Field::FirstAid => FieldKind::Date,
            _ => FieldKind::Text,
        }
    }

    /// The kind of value that the field holds.
    #[verifier::when_used_as_spec(spec_kind)]
    pub fn kind(self) -> (kind: FieldKind)
        ensures
            kind == self.spec_kind(),
    {
        match self {
            Field::Capid
            | Field::AgeAtStart
            | Field::AgeAtEnd
            | Field::Height
            | Field::Weight
            | Field::RegistrationId
            | Field::HighestORide
            | Field::InvoiceId
            | Field::PricesId => FieldKind::Integer,
            Field::IsStaff
            | Field::IsPilot => FieldKind::Flag,
            Field::DateOfBirth
            | Field::Expiration
            | Field::DlExpiration
            | Field::LastEncampment
            | Field::AircraftGroundHandling
            | Field::WingRunner
            | Field::OrmBasic
            | Field::OrmIntermediate
            | Field::CpptExpiration
            | Field::MonthlySafety
            | Field::Icut
            | Field::Is100
            | Field::Is700
            | Field::Capt116
            | Field::Capt117Part1
            | Field::Capt117Part2
            | Field::Capt117Part3
            | Field::FirstAid => FieldKind::Date,
            _ => FieldKind::Text,
        }
    }

    /// Whether every record must hold a value for the field.
    pub open spec fn spec_required(self) -> bool {
        match self {
            Field::MiddleName
            | Field::Height
            | Field::Weight
            | Field::ShirtSize
            | Field::HomePhone
            | Field::CellPhone
            | Field::Comments
            | Field::EmergencyContactName
            | Field::EmergencyContactNumber
            | Field::CadetParentPhonePrimary
            | Field::CadetParentPhoneSecondary
            | Field::CadetParentEmailPrimary
            | Field::CadetParentEmailSecondary
            | Field::DlExpiration
            | Field::LastEncampment
            | Field::HighestORide
            | Field::AircraftGroundHandling
            | Field::WingRunner
            | Field::OrmBasic
            | Field::OrmIntermediate
            | Field::CpptExpiration
            | Field::MonthlySafety
            | Field::Icut
            | Field::Is100
            | Field::Is700
            | Field::Capt116
            | Field::Capt117Part1
            | Field::Capt117Part2
            | Field::Capt117Part3
            | Field::FirstAid
            | Field::InvoiceId
            | Field::PricesId
            | Field::InvoiceStatus
            | Field::RegisteredBy => false,
            _ => true,
        }
    }

    /// Whether every record must hold a value for the field.
    #[verifier::when_used_as_spec(spec_required)]
    pub fn required(self) -> (required: bool)
        ensures
            required == self.spec_required(),
    {
        match self {
            Field::MiddleName
            | Field::Height
            | Field::Weight
            | Field::ShirtSize
            | Field::HomePhone
            | Field::CellPhone
            | Field::Comments
            | Field::EmergencyContactName
            | Field::EmergencyContactNumber
            | Field::CadetParentPhonePrimary
            | Field::CadetParentPhoneSecondary
            | Field::CadetParentEmailPrimary
            | Field::CadetParentEmailSecondary
            | Field::DlExpiration
            | Field::LastEncampment
            | Field::HighestORide
            | Field::AircraftGroundHandling
            | Field::WingRunner
            | Field::OrmBasic
            | Field::OrmIntermediate
            | Field::CpptExpiration
            | Field::MonthlySafety
            | Field::Icut
            | Field::Is100
            | Field::Is700
            | Field::Capt116
            | Field::Capt117Part1
            | Field::Capt117Part2
            | Field::Capt117Part3
            | Field::FirstAid
            | Field::InvoiceId
            | Field::PricesId
            | Field::InvoiceStatus
            | Field::RegisteredBy => false,
            _ => true,
        }
    }

    /// The name of the field, as the store's columns are named.
    pub open spec fn spec_name(self) -> Seq<char> {
        match self {
            Field::Capid => "capid"@,
            Field::Rank => "rank"@,
            Field::LastName => "last_name"@,
            Field::FirstName => "first_name"@,
            Field::MiddleName => "middle_name"@,
            Field::Unit => "unit"@,
            Field::Gender => "gender"@,
            Field::DateOfBirth => "date_of_birth"@,
            Field::AgeAtStart => "age_at_start"@,
            Field::AgeAtEnd => "age_at_end"@,
            Field::Height => "height"@,
            Field::Weight => "weight"@,
            Field::ShirtSize => "shirt_size"@,
            Field::MemberType => "member_type"@,
            Field::Expiration => "expiration"@,
            Field::MemberStatus => "member_status"@,
            Field::HomePhone => "home_phone"@,
            Field::CellPhone => "cell_phone"@,
            Field::Email => "email"@,
            Field::Address1 => "address1"@,
            Field::Address2 => "address2"@,
            Field::City => "city"@,
            Field::State => "state"@,
            Field::ZipCode => "zip_code"@,
            Field::RegistrationStatus => "registration_status"@,
            Field::IsStaff => "is_staff"@,
            Field::RegistrationId => "registration_id"@,
            Field::Comments => "comments"@,
            Field::EmergencyContactName => "emergency_contact_name"@,
            Field::EmergencyContactNumber => "emergency_contact_number"@,
            Field::CadetParentPhonePrimary => "cadet_parent_phone_primary"@,
            Field::CadetParentPhoneSecondary => "cadet_parent_phone_secondary"@,
            Field::CadetParentEmailPrimary => "cadet_parent_email_primary"@,
            Field::CadetParentEmailSecondary => "cadet_parent_email_secondary"@,
            Field::UnitCommanderName => "unit_commander_name"@,
            Field::UnitCommanderEmail => "unit_commander_email"@,
            Field::WingCommanderName => "wing_commander_name"@,
            Field::WingCommanderEmail => "wing_commander_email"@,
            Field::IsPilot => "is_pilot"@,
            Field::DlExpiration => "dl_expiration"@,
            Field::LastEncampment => "last_encampment"@,
            Field::HighestORide => "highest_o_ride"@,
            Field::AircraftGroundHandling => "aircraft_ground_handling"@,
            Field::WingRunner => "wing_runner"@,
            Field::OrmBasic => "orm_basic"@,
            Field::OrmIntermediate => "orm_intermediate"@,
            Field::CpptExpiration => "cppt_expiration"@,
            Field::MonthlySafety => "monthly_safety"@,
            Field::Icut => "icut"@,
            Field::Is100 => "is100"@,
            Field::Is700 => "is700"@,
            Field::Capt116 => "capt116"@,
            Field::Capt117Part1 => "capt117_part1"@,
            Field::Capt117Part2 => "capt117_part2"@,
            Field::Capt117Part3 => "capt117_part3"@,
            Field::FirstAid => "first_aid"@,
            Field::InvoiceId => "invoice_id"@,
            Field::PricesId => "prices_id"@,
            Field::InvoiceStatus => "invoice_status"@,
            Field::RegisteredBy => "registered_by"@,
        }
    }

    /// The name of the field, as the store's columns are named.
    pub fn name(self) -> (name: &'static str)
        ensures
            name@ == self.spec_name(),
    {
        match self {
            Field::Capid => "capid",
            Field::Rank => "rank",
            Field::LastName => "last_name",
            Field::FirstName => "first_name",
            Field::MiddleName => "middle_name",
            Field::Unit => "unit",
            Field::Gender => "gender",
            Field::DateOfBirth => "date_of_birth",
            Field::AgeAtStart => "age_at_start",
            Field::AgeAtEnd => "age_at_end",
            Field::Height => "height",
            Field::Weight => "weight",
            Field::ShirtSize => "shirt_size",
            Field::MemberType => "member_type",
            Field::Expiration => "expiration",
            Field::MemberStatus => "member_status",
            Field::HomePhone => "home_phone",
            Field::CellPhone => "cell_phone",
            Field::Email => "email",
            Field::Address1 => "address1",
            Field::Address2 => "address2",
            Field::City => "city",
            Field::State => "state",
            Field::ZipCode => "zip_code",
            Field::RegistrationStatus => "registration_status",
            Field::IsStaff => "is_staff",
            Field::RegistrationId => "registration_id",
            Field::Comments => "comments",
            Field::EmergencyContactName => "emergency_contact_name",
            Field::EmergencyContactNumber => "emergency_contact_number",
            Field::CadetParentPhonePrimary => "cadet_parent_phone_primary",
            Field::CadetParentPhoneSecondary => "cadet_parent_phone_secondary",
            Field::CadetParentEmailPrimary => "cadet_parent_email_primary",
            Field::CadetParentEmailSecondary => "cadet_parent_email_secondary",
            Field::UnitCommanderName => "unit_commander_name",
            Field::UnitCommanderEmail => "unit_commander_email",
            Field::WingCommanderName => "wing_commander_name",
            Field::WingCommanderEmail => "wing_commander_email",
            Field::IsPilot => "is_pilot",
            Field::DlExpiration => "dl_expiration",
            Field::LastEncampment => "last_encampment",
            Field::HighestORide => "highest_o_ride",
            Field::AircraftGroundHandling => "aircraft_ground_handling",
            Field::WingRunner => "wing_runner",
            Field::OrmBasic => "orm_basic",
            Field::OrmIntermediate => "orm_intermediate",
            Field::CpptExpiration => "cppt_expiration",
            Field::MonthlySafety => "monthly_safety",
            Field::Icut => "icut",
            Field::Is100 => "is100",
            Field::Is700 => "is700",
            Field::Capt116 => "capt116",
            Field::Capt117Part1 => "capt117_part1",
            Field::Capt117Part2 => "capt117_part2",
            Field::Capt117Part3 => "capt117_part3",
            Field::FirstAid => "first_aid",
            Field::InvoiceId => "invoice_id",
            Field::PricesId => "prices_id",
            Field::InvoiceStatus => "invoice_status",
            Field::RegisteredBy => "registered_by",
        }
    }
}

/// Positions and fields correspond one to one.
pub proof fn lemma_field_positions(field: Field, index: usize)
    ensures
        field.spec_index() < FIELD_COUNT,
        Field::spec_at(field.spec_index()) == field,
        index < FIELD_COUNT ==> Field::spec_at(index).spec_index() == index,
{
}

/// The placeholder texts that stand for "no value" in a column. Each flag
/// switches one placeholder on.
#[derive(Clone, Copy, Debug, PartialEq, Eq, Structural)]
pub struct Sentinels {
    /// A single space.
    pub blank: bool,
    /// Ten spaces.
    pub padding: bool,
    /// The word `Unavailable`.
    pub unavailable: bool,
    /// The words `Not Complete`.
    pub not_complete: bool,
}

impl Sentinels {
    /// No placeholder.
    pub open spec fn spec_none() -> Sentinels {
        Sentinels { blank: false, padding: false, unavailable: false, not_complete: false }
    }

    /// No placeholder.
    #[verifier::when_used_as_spec(spec_none)]
    pub fn none() -> (sentinels: Sentinels)
        ensures
            sentinels == Sentinels::spec_none(),
    {
        Sentinels { blank: false, padding: false, unavailable: false, not_complete: false }
    }

    /// A single space.
    pub open spec fn spec_blank() -> Sentinels {
        Sentinels { blank: true, padding: false, unavailable: false, not_complete: false }
    }

    /// A single space.
    #[verifier::when_used_as_spec(spec_blank)]
    pub fn blank() -> (sentinels: Sentinels)
        ensures
            sentinels == Sentinels::spec_blank(),
    {
        Sentinels { blank: true, padding: false, unavailable: false, not_complete: false }
    }

    /// Ten spaces, or the word `Unavailable`.
    pub open spec fn spec_placeholders() -> Sentinels {
        Sentinels { blank: false, padding: true, unavailable: true, not_complete: false }
    }

    /// Ten spaces, or the word `Unavailable`.
    #[verifier::when_used_as_spec(spec_placeholders)]
    pub fn placeholders() -> (sentinels: Sentinels)
        ensures
            sentinels == Sentinels::spec_placeholders(),
    {
        Sentinels { blank: false, padding: true, unavailable: true, not_complete: false }
    }

    /// The words `Not Complete`.
    pub open spec fn spec_not_complete() -> Sentinels {
        Sentinels { blank: false, padding: false, unavailable: false, not_complete: true }
    }

    /// The words `Not Complete`.
    #[verifier::when_used_as_spec(spec_not_complete)]
    pub fn not_complete() -> (sentinels: Sentinels)
        ensures
            sentinels == Sentinels::spec_not_complete(),
    {
        Sentinels { blank: false, padding: false, unavailable: false, not_complete: true }
    }

    /// Whether `text` is one of the placeholders that are switched on.
    pub open spec fn matches(self, text: Seq<char>) -> bool {
        ||| self.blank && text == " "@
        ||| self.padding && text == "          "@
        ||| self.unavailable && text == "Unavailable"@
        ||| self.not_complete && text == "Not Complete"@
    }
}

/// How the value of one field is taken from the cells of a row. Columns
/// count from zero.
#[derive(Clone, Copy, Debug, PartialEq, Eq, Structural)]
pub enum Rule {
    /// The text of the cell, which must be there.
    Text { column: usize },
    /// The text of the cell; no value for an empty cell or a placeholder.
    OptionalText { column: usize, sentinels: Sentinels },
    /// The number in the cell, rounded to the nearest integer.
    Integer { column: usize },
    /// As `Integer`; no value for an empty cell and, where `zero_is_absent`
    /// is set, for a cell that holds zero.
    OptionalInteger { column: usize, zero_is_absent: bool },
    /// True for the text `Yes`, false for anything else.
    Flag { column: usize },
    /// The date that the text of the cell writes in `pattern`.
    Date { column: usize, pattern: DatePattern },
    /// As `Date`; no value for an empty cell, empty text or a placeholder.
    OptionalDate { column: usize, pattern: DatePattern, sentinels: Sentinels },
    /// Region, wing and unit number joined by hyphens, the number with zeros
    /// in front up to three characters.
    UnitCode { region: usize, wing: usize, number: usize },
    /// The integer that the text of the cell writes in decimal; no value for
    /// an empty cell or empty text.
    NumericText { column: usize },
    /// The layout has no column for the field: no value.
    Omitted,
}

impl Rule {
    /// Whether the rule yields what `field` holds: a value of the field's
    /// kind, and always one where the field is required.
    pub open spec fn spec_suits(self, field: Field) -> bool {
        match self {
            Rule::Text { .. } | Rule::UnitCode { .. } => field.spec_kind() == FieldKind::Text,
            Rule::OptionalText { .. } => field.spec_kind() == FieldKind::Text
                && !field.spec_required(),
            Rule::Integer { .. } => field.spec_kind() == FieldKind::Integer,
            Rule::OptionalInteger { .. } | Rule::NumericText { .. } => field.spec_kind()
                == FieldKind::Integer && !field.spec_required(),
            Rule::Flag { .. } => field.spec_kind() == FieldKind::Flag,
            Rule::Date { .. } => field.spec_kind() == FieldKind::Date,
            Rule::OptionalDate { .. } => field.spec_kind() == FieldKind::Date
                && !field.spec_required(),
            Rule::Omitted => !field.spec_required(),
        }
    }

    /// Whether the rule yields what `field` holds.
    #[verifier::when_used_as_spec(spec_suits)]
    pub fn suits(self, field: Field) -> (suits: bool)
        ensures
            suits == self.spec_suits(field),
    {
        match self {
            Rule::Text { .. } | Rule::UnitCode { .. } => field.kind() == FieldKind::Text,
            Rule::OptionalText { .. } => field.kind() == FieldKind::Text && !field.required(),
            Rule::Integer { .. } => field.kind() == FieldKind::Integer,
            Rule::OptionalInteger { .. } | Rule::NumericText { .. } => field.kind()
                == FieldKind::Integer && !field.required(),
            Rule::Flag { .. } => field.kind() == FieldKind::Flag,
            Rule::Date { .. } => field.kind() == FieldKind::Date,
            Rule::OptionalDate { .. } => field.kind() == FieldKind::Date && !field.required(),
            Rule::Omitted => !field.required(),
        }
    }
}

/// The rule for `field` in the layout of the `UniversalReport` sheet.
pub open spec fn spec_universal_rule(field: Field) -> Rule {
    match field {
        Field::Capid => Rule::Integer { column: 1 },
        Field::Rank => Rule::Text { column: 5 },
        Field::LastName => Rule::Text { column: 6 },
        Field::FirstName => Rule::Text { column: 7 },
        Field::MiddleName => Rule::OptionalText { column: 8, sentinels: Sentinels::spec_none() },
        Field::Unit => Rule::UnitCode { region: 9, wing: 10, number: 11 },
        Field::Gender => Rule::Text { column: 12 },
        Field::DateOfBirth => Rule::Date { column: 13, pattern: DatePattern::MonthYear },
        Field::AgeAtStart => Rule::Integer { column: 15 },
        Field::AgeAtEnd => Rule::Integer { column: 16 },
        Field::Height => Rule::OptionalInteger { column: 17, zero_is_absent: true },
        Field::Weight => Rule::OptionalInteger { column: 18, zero_is_absent: true },
        Field::ShirtSize => Rule::OptionalText { column: 19, sentinels: Sentinels::spec_placeholders() },
        Field::MemberType => Rule::Text { column: 20 },
        Field::Expiration => Rule::Date { column: 21, pattern: DatePattern::DayMonthYear },
        Field::MemberStatus => Rule::Text { column: 22 },
        Field::HomePhone => Rule::OptionalText { column: 23, sentinels: Sentinels::spec_none() },
        Field::CellPhone => Rule::OptionalText { column: 24, sentinels: Sentinels::spec_none() },
        Field::Email => Rule::Text { column: 27 },
        Field::Address1 => Rule::Text { column: 28 },
        Field::Address2 => Rule::Text { column: 29 },
        Field::City => Rule::Text { column: 30 },
        Field::State => Rule::Text { column: 31 },
        Field::ZipCode => Rule::Text { column: 32 },
        Field::RegistrationStatus => Rule::Text { column: 35 },
        Field::IsStaff => Rule::Flag { column: 36 },
        Field::RegistrationId => Rule::Integer { column: 40 },
        Field::Comments => Rule::OptionalText { column: 42, sentinels: Sentinels::spec_none() },
        Field::EmergencyContactName => Rule::OptionalText { column: 25, sentinels: Sentinels::spec_none() },
        Field::EmergencyContactNumber => Rule::OptionalText { column: 26, sentinels: Sentinels::spec_none() },
        Field::CadetParentPhonePrimary => Rule::OptionalText { column: 53, sentinels: Sentinels::spec_none() },
        Field::CadetParentPhoneSecondary => Rule::OptionalText { column: 54, sentinels: Sentinels::spec_none() },
        Field::CadetParentEmailPrimary => Rule::OptionalText { column: 56, sentinels: Sentinels::spec_none() },
        Field::CadetParentEmailSecondary => Rule::OptionalText { column: 57, sentinels: Sentinels::spec_none() },
        Field::UnitCommanderName => Rule::Text { column: 59 },
        Field::UnitCommanderEmail => Rule::Text { column: 60 },
        Field::WingCommanderName => Rule::Text { column: 61 },
        Field::WingCommanderEmail => Rule::Text { column: 62 },
        Field::IsPilot => Rule::Flag { column: 63 },
        Field::DlExpiration => Rule::OptionalDate { column: 64, pattern: DatePattern::DayMonthYear, sentinels: Sentinels::spec_blank() },
        Field::LastEncampment => Rule::OptionalDate { column: 65, pattern: DatePattern::DayMonthYear, sentinels: Sentinels::spec_blank() },
        Field::HighestORide => Rule::NumericText { column: 66 },
        Field::AircraftGroundHandling => Rule::OptionalDate { column: 68, pattern: DatePattern::DayMonthYear, sentinels: Sentinels::spec_not_complete() },
        Field::WingRunner => Rule::OptionalDate { column: 69, pattern: DatePattern::DayMonthYear, sentinels: Sentinels::spec_not_complete() },
        Field::OrmBasic => Rule::OptionalDate { column: 70, pattern: DatePattern::DayMonthYear, sentinels: Sentinels::spec_not_complete() },
        Field::OrmIntermediate => Rule::OptionalDate { column: 71, pattern: DatePattern::DayMonthYear, sentinels: Sentinels::spec_not_complete() },
        Field::CpptExpiration => Rule::OptionalDate { column: 72, pattern: DatePattern::DayMonthYear, sentinels: Sentinels::spec_none() },
        Field::MonthlySafety => Rule::OptionalDate { column: 73, pattern: DatePattern::DayMonthYear, sentinels: Sentinels::spec_not_complete() },
        Field::Icut => Rule::OptionalDate { column: 74, pattern: DatePattern::DayMonthYear, sentinels: Sentinels::spec_not_complete() },
        Field::Is100 => Rule::OptionalDate { column: 75, pattern: DatePattern::DayMonthYear, sentinels: Sentinels::spec_not_complete() },
        Field::Is700 => Rule::OptionalDate { column: 76, pattern: DatePattern::DayMonthYear, sentinels: Sentinels::spec_not_complete() },
        Field::Capt116 => Rule::OptionalDate { column: 77, pattern: DatePattern::DayMonthYear, sentinels: Sentinels::spec_not_complete() },
        Field::Capt117Part1 => Rule::OptionalDate { column: 78, pattern: DatePattern::DayMonthYear, sentinels: Sentinels::spec_not_complete() },
        Field::Capt117Part2 => Rule::OptionalDate { column: 79, pattern: DatePattern::DayMonthYear, sentinels: Sentinels::spec_not_complete() },
        Field::Capt117Part3 => Rule::OptionalDate { column: 80, pattern: DatePattern::DayMonthYear, sentinels: Sentinels::spec_not_complete() },
        Field::FirstAid => Rule::OptionalDate { column: 81, pattern: DatePattern::DayMonthYear, sentinels: Sentinels::spec_not_complete() },
        Field::InvoiceId => Rule::OptionalInteger { column: 82, zero_is_absent: false },
        Field::PricesId => Rule::OptionalInteger { column: 83, zero_is_absent: false },
        Field::InvoiceStatus => Rule::OptionalText { column: 84, sentinels: Sentinels::spec_none() },
        Field::RegisteredBy => Rule::OptionalText { column: 87, sentinels: Sentinels::spec_none() },
    }
}

/// The rule for `field` in the layout of the `UniversalReport` sheet.
#[verifier::when_used_as_spec(spec_universal_rule)]
pub fn universal_rule(field: Field) -> (rule: Rule)
    ensures
        rule == spec_universal_rule(field),
        rule.spec_suits(field),
{
    match field {
        Field::Capid => Rule::Integer { column: 1 },
        Field::Rank => Rule::Text { column: 5 },
        Field::LastName => Rule::Text { column: 6 },
        Field::FirstName => Rule::Text { column: 7 },
        Field::MiddleName => Rule::OptionalText { column: 8, sentinels: Sentinels::none() },
        Field::Unit => Rule::UnitCode { region: 9, wing: 10, number: 11 },
        Field::Gender => Rule::Text { column: 12 },
        Field::DateOfBirth => Rule::Date { column: 13, pattern: DatePattern::MonthYear },
        Field::AgeAtStart => Rule::Integer { column: 15 },
        Field::AgeAtEnd => Rule::Integer { column: 16 },
        Field::Height => Rule::OptionalInteger { column: 17, zero_is_absent: true },
        Field::Weight => Rule::OptionalInteger { column: 18, zero_is_absent: true },
        Field::ShirtSize => Rule::OptionalText { column: 19, sentinels: Sentinels::placeholders() },
        Field::MemberType => Rule::Text { column: 20 },
        Field::Expiration => Rule::Date { column: 21, pattern: DatePattern::DayMonthYear },
        Field::MemberStatus => Rule::Text { column: 22 },
        Field::HomePhone => Rule::OptionalText { column: 23, sentinels: Sentinels::none() },
        Field::CellPhone => Rule::OptionalText { column: 24, sentinels: Sentinels::none() },
        Field::Email => Rule::Text { column: 27 },
        Field::Address1 => Rule::Text { column: 28 },
        Field::Address2 => Rule::Text { column: 29 },
        Field::City => Rule::Text { column: 30 },
        Field::State => Rule::Text { column: 31 },
        Field::ZipCode => Rule::Text { column: 32 },
        Field::RegistrationStatus => Rule::Text { column: 35 },
        Field::IsStaff => Rule::Flag { column: 36 },
        Field::RegistrationId => Rule::Integer { column: 40 },
        Field::Comments => Rule::OptionalText { column: 42, sentinels: Sentinels::none() },
        Field::EmergencyContactName => Rule::OptionalText { column: 25, sentinels: Sentinels::none() },
        Field::EmergencyContactNumber => Rule::OptionalText { column: 26, sentinels: Sentinels::none() },
        Field::CadetParentPhonePrimary => Rule::OptionalText { column: 53, sentinels: Sentinels::none() },
        Field::CadetParentPhoneSecondary => Rule::OptionalText { column: 54, sentinels: Sentinels::none() },
        Field::CadetParentEmailPrimary => Rule::OptionalText { column: 56, sentinels: Sentinels::none() },
        Field::CadetParentEmailSecondary => Rule::OptionalText { column: 57, sentinels: Sentinels::none() },
        Field::UnitCommanderName => Rule::Text { column: 59 },
        Field::UnitCommanderEmail => Rule::Text { column: 60 },
        Field::WingCommanderName => Rule::Text { column: 61 },
        Field::WingCommanderEmail => Rule::Text { column: 62 },
        Field::IsPilot => Rule::Flag { column: 63 },
        Field::DlExpiration => Rule::OptionalDate { column: 64, pattern: DatePattern::DayMonthYear, sentinels: Sentinels::blank() },
        Field::LastEncampment => Rule::OptionalDate { column: 65, pattern: DatePattern::DayMonthYear, sentinels: Sentinels::blank() },
        Field::HighestORide => Rule::NumericText { column: 66 },
        Field::AircraftGroundHandling => Rule::OptionalDate { column: 68, pattern: DatePattern::DayMonthYear, sentinels: Sentinels::not_complete() },
        Field::WingRunner => Rule::OptionalDate { column: 69, pattern: DatePattern::DayMonthYear, sentinels: Sentinels::not_complete() },
        Field::OrmBasic => Rule::OptionalDate { column: 70, pattern: DatePattern::DayMonthYear, sentinels: Sentinels::not_complete() },
        Field::OrmIntermediate => Rule::OptionalDate { column: 71, pattern: DatePattern::DayMonthYear, sentinels: Sentinels::not_complete() },
        Field::CpptExpiration => Rule::OptionalDate { column: 72, pattern: DatePattern::DayMonthYear, sentinels: Sentinels::none() },
        Field::MonthlySafety => Rule::OptionalDate { column: 73, pattern: DatePattern::DayMonthYear, sentinels: Sentinels::not_complete() },
        Field::Icut => Rule::OptionalDate { column: 74, pattern: DatePattern::DayMonthYear, sentinels: Sentinels::not_complete() },
        Field::Is100 => Rule::OptionalDate { column: 75, pattern: DatePattern::DayMonthYear, sentinels: Sentinels::not_complete() },
        Field::Is700 => Rule::OptionalDate { column: 76, pattern: DatePattern::DayMonthYear, sentinels: Sentinels::not_complete() },
        Field::Capt116 => Rule::OptionalDate { column: 77, pattern: DatePattern::DayMonthYear, sentinels: Sentinels::not_complete() },
        Field::Capt117Part1 => Rule::OptionalDate { column: 78, pattern: DatePattern::DayMonthYear, sentinels: Sentinels::not_complete() },
        Field::Capt117Part2 => Rule::OptionalDate { column: 79, pattern: DatePattern::DayMonthYear, sentinels: Sentinels::not_complete() },
        Field::Capt117Part3 => Rule::OptionalDate { column: 80, pattern: DatePattern::DayMonthYear, sentinels: Sentinels::not_complete() },
        Field::FirstAid => Rule::OptionalDate { column: 81, pattern: DatePattern::DayMonthYear, sentinels: Sentinels::not_complete() },
        Field::InvoiceId => Rule::OptionalInteger { column: 82, zero_is_absent: false },
        Field::PricesId => Rule::OptionalInteger { column: 83, zero_is_absent: false },
        Field::InvoiceStatus => Rule::OptionalText { column: 84, sentinels: Sentinels::none() },
        Field::RegisteredBy => Rule::OptionalText { column: 87, sentinels: Sentinels::none() },
    }
}

} // verus!
