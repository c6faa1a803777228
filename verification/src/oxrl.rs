//! The open-source hardware readiness ladders: technology readiness
//! (OTRL) and documentation readiness (ODRL) levels.

use vstd::prelude::*;

verus! {

/// Why a number could not be read as a readiness level.
#[derive(Debug, Clone, Copy, PartialEq, Eq, Structural)]
pub enum ParseError {
    /// Tried to convert a number to the enum which was not in its range.
    InvalidIndex(u8),
}

/// Open Technology Readiness Level.
#[derive(Debug, Clone, Copy, PartialEq, Eq, Structural)]
pub enum Otrl {
    /// Product idea; needs are identified and initial specifications are
    /// defined.
    Ideation,
    /// Mature product concept has been formulated.
    Conception,
    /// Product model is developed.
    Development,
    /// Full functional prototype is built and tested.
    PrototypingAndTesting,
    /// Fairly reliable processes identified and characterised.
    ManufacturingDevelopment,
    /// Certificate marking conformity assessment or comparable.
    ProductQualification,
}

impl Otrl {
    /// The level's position on the ladder, starting at one.
    pub open spec fn spec_index(self) -> u8 {
        match self {
            Otrl::Ideation => 1,
            Otrl::Conception => 2,
            Otrl::Development => 3,
            Otrl::PrototypingAndTesting => 4,
            Otrl::ManufacturingDevelopment => 5,
            Otrl::ProductQualification => 6,
        }
    }

    /// The level's position on the ladder, starting at one.
    pub fn to_index(&self) -> (r: u8)
        ensures
            r == self.spec_index(),
    {
        match self {
            Otrl::Ideation => 1,
            Otrl::Conception => 2,
            Otrl::Development => 3,
            Otrl::PrototypingAndTesting => 4,
            Otrl::ManufacturingDevelopment => 5,
            Otrl::ProductQualification => 6,
        }
    }

    /// The level at a ladder position; positions outside the ladder are
    /// rejected with the offending number.
    pub fn try_from(num: u8) -> (r: Result<Otrl, ParseError>)
        ensures
            r is Ok <==> 1 <= num <= 6,
            r matches Ok(v) ==> v.spec_index() == num,
            r matches Err(e) ==> e == ParseError::InvalidIndex(num),
    {
        match num {
            1 => Result::Ok(Otrl::Ideation),
            2 => Result::Ok(Otrl::Conception),
            3 => Result::Ok(Otrl::Development),
            4 => Result::Ok(Otrl::PrototypingAndTesting),
            5 => Result::Ok(Otrl::ManufacturingDevelopment),
            6 => Result::Ok(Otrl::ProductQualification),
            _ => Result::Err(ParseError::InvalidIndex(num)),
        }
    }
}

/// Open Documentation Readiness Level.
#[derive(Debug, Clone, Copy, PartialEq, Eq, Structural)]
pub enum Odrl {
    /// Published information under free open source licence.
    Started,
    /// Provision of documentation files and in editable formats enabling
    /// collaboration development.
    Minimal,
    /// Complete documentation as per DIN SPEC 3105-1.
    Full,
    /// Public evidence of documentation maturity.
    Audited,
    /// Full documentation for product qualification.
    QualificationReady,
}

impl Odrl {
    /// The level's position on the ladder, starting at one.
    pub open spec fn spec_index(self) -> u8 {
        match self {
            Odrl::Started => 1,
            Odrl::Minimal => 2,
            Odrl::Full => 3,
            Odrl::Audited => 4,
            Odrl::QualificationReady => 5,
        }
    }

    /// The level's position on the ladder, starting at one.
    pub fn to_index(&self) -> (r: u8)
        ensures
            r == self.spec_index(),
    {
        match self {
            Odrl::Started => 1,
            Odrl::Minimal => 2,
            Odrl::Full => 3,
            Odrl::Audited => 4,
            Odrl::QualificationReady => 5,
        }
    }

    /// The level at a ladder position; positions outside the ladder are
    /// rejected with the offending number.
    pub fn try_from(num: u8) -> (r: Result<Odrl, ParseError>)
        ensures
            r is Ok <==> 1 <= num <= 5,
            r matches Ok(v) ==> v.spec_index() == num,
            r matches Err(e) ==> e == ParseError::InvalidIndex(num),
    {
        match num {
            1 => Result::Ok(Odrl::Started),
            2 => Result::Ok(Odrl::Minimal),
            3 => Result::Ok(Odrl::Full),
            4 => Result::Ok(Odrl::Audited),
            5 => Result::Ok(Odrl::QualificationReady),
            _ => Result::Err(ParseError::InvalidIndex(num)),
        }
    }
}

} // verus!
