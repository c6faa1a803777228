//! Step-by-step construction of the composite manifest types: each
//! builder collects field values and yields the finished value once every
//! required field has been supplied.

use vstd::prelude::*;
use vstd::string::StringExecFns;

use crate::formats::generated;
use crate::formats::generated::ConversionError;

verus! {

/// Builds a [`generated::DoiOrWebUrl`].
pub struct DoiOrWebUrl {
    pub subtype_0: Result<Option<generated::Doi>, String>,
    pub subtype_1: Result<Option<generated::WebUrl>, String>,
}

impl Default for DoiOrWebUrl {
    /// Both alternatives start absent.
    fn default() -> (r: Self)
        ensures
            r.subtype_0 matches Ok(v) && v is None,
            r.subtype_1 matches Ok(v) && v is None,
    {
        DoiOrWebUrl { subtype_0: Result::Ok(Option::None), subtype_1: Result::Ok(Option::None) }
    }
}

impl DoiOrWebUrl {
    /// Supplies the DOI alternative.
    pub fn subtype_0(self, value: Option<generated::Doi>) -> (r: Self)
        ensures
            r.subtype_0 matches Ok(v) && v == value,
            r.subtype_1 == self.subtype_1,
    {
        DoiOrWebUrl { subtype_0: Result::Ok(value), subtype_1: self.subtype_1 }
    }

    /// Supplies the URL alternative.
    pub fn subtype_1(self, value: Option<generated::WebUrl>) -> (r: Self)
        ensures
            r.subtype_1 matches Ok(v) && v == value,
            r.subtype_0 == self.subtype_0,
    {
        DoiOrWebUrl { subtype_0: self.subtype_0, subtype_1: Result::Ok(value) }
    }

    /// The finished value, once every field is supplied.
    pub fn build(self) -> (r: Result<generated::DoiOrWebUrl, ConversionError>)
        ensures
            self.subtype_0 matches Ok(a) ==> (self.subtype_1 matches Ok(b) ==> (r matches Ok(v)
                && v.subtype_0 == a && v.subtype_1 == b)),
            (self.subtype_0 is Err || self.subtype_1 is Err) ==> r is Err,
    {
        let subtype_0 = match self.subtype_0 {
            Result::Ok(v) => v,
            Result::Err(e) => {
                return Result::Err(ConversionError::new(e.as_str()));
            },
        };
        let subtype_1 = match self.subtype_1 {
            Result::Ok(v) => v,
            Result::Err(e) => {
                return Result::Err(ConversionError::new(e.as_str()));
            },
        };
        Result::Ok(generated::DoiOrWebUrl { subtype_0, subtype_1 })
    }
}

impl From<generated::DoiOrWebUrl> for DoiOrWebUrl {
    /// A builder primed with an existing value.
    fn from(value: generated::DoiOrWebUrl) -> (r: Self) {
        DoiOrWebUrl { subtype_0: Result::Ok(value.subtype_0), subtype_1: Result::Ok(value.subtype_1) }
    }
}

impl vstd::std_specs::convert::FromSpecImpl<generated::DoiOrWebUrl> for DoiOrWebUrl {
    open spec fn obeys_from_spec() -> bool {
        true
    }

    open spec fn from_spec(value: generated::DoiOrWebUrl) -> Self {
        DoiOrWebUrl { subtype_0: Result::Ok(value.subtype_0), subtype_1: Result::Ok(value.subtype_1) }
    }
}

/// Builds a [`generated::DoiOrWebUrlMulti`].
pub struct DoiOrWebUrlMulti {
    pub subtype_0: Result<Option<generated::DoiOrWebUrl>, String>,
    pub subtype_1: Result<Option<Vec<generated::DoiOrWebUrl>>, String>,
}

impl Default for DoiOrWebUrlMulti {
    /// Both alternatives start absent.
    fn default() -> (r: Self)
        ensures
            r.subtype_0 matches Ok(v) && v is None,
            r.subtype_1 matches Ok(v) && v is None,
    {
        DoiOrWebUrlMulti {
            subtype_0: Result::Ok(Option::None),
            subtype_1: Result::Ok(Option::None),
        }
    }
}

impl DoiOrWebUrlMulti {
    /// Supplies the single-reference alternative.
    pub fn subtype_0(self, value: Option<generated::DoiOrWebUrl>) -> (r: Self)
        ensures
            r.subtype_0 matches Ok(v) && v == value,
            r.subtype_1 == self.subtype_1,
    {
        DoiOrWebUrlMulti { subtype_0: Result::Ok(value), subtype_1: self.subtype_1 }
    }

    /// Supplies the list alternative.
    pub fn subtype_1(self, value: Option<Vec<generated::DoiOrWebUrl>>) -> (r: Self)
        ensures
            r.subtype_1 matches Ok(v) && v == value,
            r.subtype_0 == self.subtype_0,
    {
        DoiOrWebUrlMulti { subtype_0: self.subtype_0, subtype_1: Result::Ok(value) }
    }

    /// The finished value, once every field is supplied.
    pub fn build(self) -> (r: Result<generated::DoiOrWebUrlMulti, ConversionError>)
        ensures
            self.subtype_0 matches Ok(a) ==> (self.subtype_1 matches Ok(b) ==> (r matches Ok(v)
                && v.subtype_0 == a && v.subtype_1 == b)),
            (self.subtype_0 is Err || self.subtype_1 is Err) ==> r is Err,
    {
        let subtype_0 = match self.subtype_0 {
            Result::Ok(v) => v,
            Result::Err(e) => {
                return Result::Err(ConversionError::new(e.as_str()));
            },
        };
        let subtype_1 = match self.subtype_1 {
            Result::Ok(v) => v,
            Result::Err(e) => {
                return Result::Err(ConversionError::new(e.as_str()));
            },
        };
        Result::Ok(generated::DoiOrWebUrlMulti { subtype_0, subtype_1 })
    }
}

impl From<generated::DoiOrWebUrlMulti> for DoiOrWebUrlMulti {
    /// A builder primed with an existing value.
    fn from(value: generated::DoiOrWebUrlMulti) -> (r: Self) {
        DoiOrWebUrlMulti {
            subtype_0: Result::Ok(value.subtype_0),
            subtype_1: Result::Ok(value.subtype_1),
        }
    }
}

impl vstd::std_specs::convert::FromSpecImpl<generated::DoiOrWebUrlMulti> for DoiOrWebUrlMulti {
    open spec fn obeys_from_spec() -> bool {
        true
    }

    open spec fn from_spec(value: generated::DoiOrWebUrlMulti) -> Self {
        DoiOrWebUrlMulti {
            subtype_0: Result::Ok(value.subtype_0),
            subtype_1: Result::Ok(value.subtype_1),
        }
    }
}

/// Builds a [`generated::ImageMulti`].
pub struct ImageMulti {
    pub subtype_0: Result<Option<generated::Image>, String>,
    pub subtype_1: Result<Option<Vec<generated::Image>>, String>,
}

impl Default for ImageMulti {
    /// Both alternatives start absent.
    fn default() -> (r: Self)
        ensures
            r.subtype_0 matches Ok(v) && v is None,
            r.subtype_1 matches Ok(v) && v is None,
    {
        ImageMulti { subtype_0: Result::Ok(Option::None), subtype_1: Result::Ok(Option::None) }
    }
}

impl ImageMulti {
    /// Supplies the single-image alternative.
    pub fn subtype_0(self, value: Option<generated::Image>) -> (r: Self)
        ensures
            r.subtype_0 matches Ok(v) && v == value,
            r.subtype_1 == self.subtype_1,
    {
        ImageMulti { subtype_0: Result::Ok(value), subtype_1: self.subtype_1 }
    }

    /// Supplies the list alternative.
    pub fn subtype_1(self, value: Option<Vec<generated::Image>>) -> (r: Self)
        ensures
            r.subtype_1 matches Ok(v) && v == value,
            r.subtype_0 == self.subtype_0,
    {
        ImageMulti { subtype_0: self.subtype_0, subtype_1: Result::Ok(value) }
    }

    /// The finished value, once every field is supplied.
    pub fn build(self) -> (r: Result<generated::ImageMulti, ConversionError>)
        ensures
            self.subtype_0 matches Ok(a) ==> (self.subtype_1 matches Ok(b) ==> (r matches Ok(v)
                && v.subtype_0 == a && v.subtype_1 == b)),
            (self.subtype_0 is Err || self.subtype_1 is Err) ==> r is Err,
    {
        let subtype_0 = match self.subtype_0 {
            Result::Ok(v) => v,
            Result::Err(e) => {
                return Result::Err(ConversionError::new(e.as_str()));
            },
        };
        let subtype_1 = match self.subtype_1 {
            Result::Ok(v) => v,
            Result::Err(e) => {
                return Result::Err(ConversionError::new(e.as_str()));
            },
        };
        Result::Ok(generated::ImageMulti { subtype_0, subtype_1 })
    }
}

impl From<generated::ImageMulti> for ImageMulti {
    /// A builder primed with an existing value.
    fn from(value: generated::ImageMulti) -> (r: Self) {
        ImageMulti { subtype_0: Result::Ok(value.subtype_0), subtype_1: Result::Ok(value.subtype_1) }
    }
}

impl vstd::std_specs::convert::FromSpecImpl<generated::ImageMulti> for ImageMulti {
    open spec fn obeys_from_spec() -> bool {
        true
    }

    open spec fn from_spec(value: generated::ImageMulti) -> Self {
        ImageMulti { subtype_0: Result::Ok(value.subtype_0), subtype_1: Result::Ok(value.subtype_1) }
    }
}

/// Builds a [`generated::ImageObject`].
pub struct ImageObject {
    pub depicts: Result<Option<generated::ImageObjectDepicts>, String>,
    pub location: Result<generated::RelPathOrWebUrl, String>,
    pub slots: Result<Vec<generated::ImageObjectSlotsItem>, String>,
    pub tags: Result<Vec<generated::ImageObjectTagsItem>, String>,
}

impl Default for ImageObject {
    /// The location is required; everything else starts empty.
    fn default() -> (r: Self)
        ensures
            r.depicts matches Ok(v) && v is None,
            r.location matches Err(m) && m@ == "no value supplied for location"@,
            r.slots matches Ok(v) && v@.len() == 0,
            r.tags matches Ok(v) && v@.len() == 0,
    {
        ImageObject {
            depicts: Result::Ok(Option::None),
            location: Result::Err(String::from_str("no value supplied for location")),
            slots: Result::Ok(Vec::new()),
            tags: Result::Ok(Vec::new()),
        }
    }
}

impl ImageObject {
    /// Supplies what the image depicts.
    pub fn depicts(self, value: Option<generated::ImageObjectDepicts>) -> (r: Self)
        ensures
            r.depicts matches Ok(v) && v == value,
            r.location == self.location,
            r.slots == self.slots,
            r.tags == self.tags,
    {
        ImageObject {
            depicts: Result::Ok(value),
            location: self.location,
            slots: self.slots,
            tags: self.tags,
        }
    }

    /// Supplies the image's location.
    pub fn location(self, value: generated::RelPathOrWebUrl) -> (r: Self)
        ensures
            r.location matches Ok(v) && v == value,
            r.depicts == self.depicts,
            r.slots == self.slots,
            r.tags == self.tags,
    {
        ImageObject {
            depicts: self.depicts,
            location: Result::Ok(value),
            slots: self.slots,
            tags: self.tags,
        }
    }

    /// Supplies the image's slots.
    pub fn slots(self, value: Vec<generated::ImageObjectSlotsItem>) -> (r: Self)
        ensures
            r.slots matches Ok(v) && v == value,
            r.depicts == self.depicts,
            r.location == self.location,
            r.tags == self.tags,
    {
        ImageObject {
            depicts: self.depicts,
            location: self.location,
            slots: Result::Ok(value),
            tags: self.tags,
        }
    }

    /// Supplies the image's tags.
    pub fn tags(self, value: Vec<generated::ImageObjectTagsItem>) -> (r: Self)
        ensures
            r.tags matches Ok(v) && v == value,
            r.depicts == self.depicts,
            r.location == self.location,
            r.slots == self.slots,
    {
        ImageObject {
            depicts: self.depicts,
            location: self.location,
            slots: self.slots,
            tags: Result::Ok(value),
        }
    }

    /// The finished value, once every field is supplied.
    pub fn build(self) -> (r: Result<generated::ImageObject, ConversionError>)
        ensures
            self.depicts matches Ok(d) ==> (self.location matches Ok(l) ==> (self.slots matches Ok(
                s,
            ) ==> (self.tags matches Ok(t) ==> (r matches Ok(v) && v.depicts == d && v.location
                == l && v.slots == s && v.tags == t)))),
            (self.depicts is Err || self.location is Err || self.slots is Err || self.tags
                is Err) ==> r is Err,
    {
        let depicts = match self.depicts {
            Result::Ok(v) => v,
            Result::Err(e) => {
                return Result::Err(ConversionError::new(e.as_str()));
            },
        };
        let location = match self.location {
            Result::Ok(v) => v,
            Result::Err(e) => {
                return Result::Err(ConversionError::new(e.as_str()));
            },
        };
        let slots = match self.slots {
            Result::Ok(v) => v,
            Result::Err(e) => {
                return Result::Err(ConversionError::new(e.as_str()));
            },
        };
        let tags = match self.tags {
            Result::Ok(v) => v,
            Result::Err(e) => {
                return Result::Err(ConversionError::new(e.as_str()));
            },
        };
        Result::Ok(generated::ImageObject { depicts, location, slots, tags })
    }
}

impl From<generated::ImageObject> for ImageObject {
    /// A builder primed with an existing value.
    fn from(value: generated::ImageObject) -> (r: Self) {
        ImageObject {
            depicts: Result::Ok(value.depicts),
            location: Result::Ok(value.location),
            slots: Result::Ok(value.slots),
            tags: Result::Ok(value.tags),
        }
    }
}

impl vstd::std_specs::convert::FromSpecImpl<generated::ImageObject> for ImageObject {
    open spec fn obeys_from_spec() -> bool {
        true
    }

    open spec fn from_spec(value: generated::ImageObject) -> Self {
        ImageObject {
            depicts: Result::Ok(value.depicts),
            location: Result::Ok(value.location),
            slots: Result::Ok(value.slots),
            tags: Result::Ok(value.tags),
        }
    }
}

/// Builds a [`generated::LangText`].
pub struct LangText {
    pub language: Result<generated::Language, String>,
    pub text: Result<String, String>,
}

impl Default for LangText {
    /// Both fields are required.
    fn default() -> (r: Self)
        ensures
            r.language matches Err(m) && m@ == "no value supplied for language"@,
            r.text matches Err(m) && m@ == "no value supplied for text"@,
    {
        LangText {
            language: Result::Err(String::from_str("no value supplied for language")),
            text: Result::Err(String::from_str("no value supplied for text")),
        }
    }
}

impl LangText {
    /// Supplies the language tag.
    pub fn language(self, value: generated::Language) -> (r: Self)
        ensures
            r.language matches Ok(v) && v == value,
            r.text == self.text,
    {
        LangText { language: Result::Ok(value), text: self.text }
    }

    /// Supplies the text content.
    pub fn text(self, value: String) -> (r: Self)
        ensures
            r.text matches Ok(v) && v == value,
            r.language == self.language,
    {
        LangText { language: self.language, text: Result::Ok(value) }
    }

    /// The finished value, once every field is supplied.
    pub fn build(self) -> (r: Result<generated::LangText, ConversionError>)
        ensures
            self.language matches Ok(l) ==> (self.text matches Ok(t) ==> (r matches Ok(v)
                && v.language == l && v.text == t)),
            (self.language is Err || self.text is Err) ==> r is Err,
    {
        let language = match self.language {
            Result::Ok(v) => v,
            Result::Err(e) => {
                return Result::Err(ConversionError::new(e.as_str()));
            },
        };
        let text = match self.text {
            Result::Ok(v) => v,
            Result::Err(e) => {
                return Result::Err(ConversionError::new(e.as_str()));
            },
        };
        Result::Ok(generated::LangText { language, text })
    }
}

impl From<generated::LangText> for LangText {
    /// A builder primed with an existing value.
    fn from(value: generated::LangText) -> (r: Self) {
        LangText { language: Result::Ok(value.language), text: Result::Ok(value.text) }
    }
}

impl vstd::std_specs::convert::FromSpecImpl<generated::LangText> for LangText {
    open spec fn obeys_from_spec() -> bool {
        true
    }

    open spec fn from_spec(value: generated::LangText) -> Self {
        LangText { language: Result::Ok(value.language), text: Result::Ok(value.text) }
    }
}

/// Builds a [`generated::Person`].
pub struct Person {
    pub email: Result<Option<generated::Email>, String>,
    pub name: Result<Option<String>, String>,
    pub url: Result<Option<generated::WebUrl>, String>,
}

impl Default for Person {
    /// Every field starts absent.
    fn default() -> (r: Self)
        ensures
            r.email matches Ok(v) && v is None,
            r.name matches Ok(v) && v is None,
            r.url matches Ok(v) && v is None,
    {
        Person {
            email: Result::Ok(Option::None),
            name: Result::Ok(Option::None),
            url: Result::Ok(Option::None),
        }
    }
}

impl Person {
    /// Supplies the email.
    pub fn email(self, value: Option<generated::Email>) -> (r: Self)
        ensures
            r.email matches Ok(v) && v == value,
            r.name == self.name,
            r.url == self.url,
    {
        Person { email: Result::Ok(value), name: self.name, url: self.url }
    }

    /// Supplies the name.
    pub fn name(self, value: Option<String>) -> (r: Self)
        ensures
            r.name matches Ok(v) && v == value,
            r.email == self.email,
            r.url == self.url,
    {
        Person { email: self.email, name: Result::Ok(value), url: self.url }
    }

    /// Supplies the home page.
    pub fn url(self, value: Option<generated::WebUrl>) -> (r: Self)
        ensures
            r.url matches Ok(v) && v == value,
            r.email == self.email,
            r.name == self.name,
    {
        Person { email: self.email, name: self.name, url: Result::Ok(value) }
    }

    /// The finished value, once every field is supplied.
    pub fn build(self) -> (r: Result<generated::Person, ConversionError>)
        ensures
            self.email matches Ok(e) ==> (self.name matches Ok(n) ==> (self.url matches Ok(u) ==> (
            r matches Ok(v) && v.email == e && v.name == n && v.url == u))),
            (self.email is Err || self.name is Err || self.url is Err) ==> r is Err,
    {
        let email = match self.email {
            Result::Ok(v) => v,
            Result::Err(e) => {
                return Result::Err(ConversionError::new(e.as_str()));
            },
        };
        let name = match self.name {
            Result::Ok(v) => v,
            Result::Err(e) => {
                return Result::Err(ConversionError::new(e.as_str()));
            },
        };
        let url = match self.url {
            Result::Ok(v) => v,
            Result::Err(e) => {
                return Result::Err(ConversionError::new(e.as_str()));
            },
        };
        Result::Ok(generated::Person { email, name, url })
    }
}

impl From<generated::Person> for Person {
    /// A builder primed with an existing value.
    fn from(value: generated::Person) -> (r: Self) {
        Person {
            email: Result::Ok(value.email),
            name: Result::Ok(value.name),
            url: Result::Ok(value.url),
        }
    }
}

impl vstd::std_specs::convert::FromSpecImpl<generated::Person> for Person {
    open spec fn obeys_from_spec() -> bool {
        true
    }

    open spec fn from_spec(value: generated::Person) -> Self {
        Person {
            email: Result::Ok(value.email),
            name: Result::Ok(value.name),
            url: Result::Ok(value.url),
        }
    }
}

/// Builds a [`generated::RdfNamespace`].
pub struct RdfNamespace {
    pub namespace: Result<String, String>,
    pub prefix: Result<Option<String>, String>,
}

impl Default for RdfNamespace {
    /// The namespace is required; the prefix starts absent.
    fn default() -> (r: Self)
        ensures
            r.namespace matches Err(m) && m@ == "no value supplied for namespace"@,
            r.prefix matches Ok(v) && v is None,
    {
        RdfNamespace {
            namespace: Result::Err(String::from_str("no value supplied for namespace")),
            prefix: Result::Ok(Option::None),
        }
    }
}

impl RdfNamespace {
    /// Supplies the namespace.
    pub fn namespace(self, value: String) -> (r: Self)
        ensures
            r.namespace matches Ok(v) && v == value,
            r.prefix == self.prefix,
    {
        RdfNamespace { namespace: Result::Ok(value), prefix: self.prefix }
    }

    /// Supplies the prefix.
    pub fn prefix(self, value: Option<String>) -> (r: Self)
        ensures
            r.prefix matches Ok(v) && v == value,
            r.namespace == self.namespace,
    {
        RdfNamespace { namespace: self.namespace, prefix: Result::Ok(value) }
    }

    /// The finished value, once every field is supplied.
    pub fn build(self) -> (r: Result<generated::RdfNamespace, ConversionError>)
        ensures
            self.namespace matches Ok(n) ==> (self.prefix matches Ok(p) ==> (r matches Ok(v)
                && v.namespace == n && v.prefix == p)),
            (self.namespace is Err || self.prefix is Err) ==> r is Err,
    {
        let namespace = match self.namespace {
            Result::Ok(v) => v,
            Result::Err(e) => {
                return Result::Err(ConversionError::new(e.as_str()));
            },
        };
        let prefix = match self.prefix {
            Result::Ok(v) => v,
            Result::Err(e) => {
                return Result::Err(ConversionError::new(e.as_str()));
            },
        };
        Result::Ok(generated::RdfNamespace { namespace, prefix })
    }
}

impl From<generated::RdfNamespace> for RdfNamespace {
    /// A builder primed with an existing value.
    fn from(value: generated::RdfNamespace) -> (r: Self) {
        RdfNamespace { namespace: Result::Ok(value.namespace), prefix: Result::Ok(value.prefix) }
    }
}

impl vstd::std_specs::convert::FromSpecImpl<generated::RdfNamespace> for RdfNamespace {
    open spec fn obeys_from_spec() -> bool {
        true
    }

    open spec fn from_spec(value: generated::RdfNamespace) -> Self {
        RdfNamespace { namespace: Result::Ok(value.namespace), prefix: Result::Ok(value.prefix) }
    }
}

/// Builds a [`generated::RelPathOrWebUrl`].
pub struct RelPathOrWebUrl {
    pub subtype_0: Result<Option<generated::WebUrl>, String>,
    pub subtype_1: Result<Option<generated::RelPath>, String>,
}

impl Default for RelPathOrWebUrl {
    /// Both alternatives start absent.
    fn default() -> (r: Self)
        ensures
            r.subtype_0 matches Ok(v) && v is None,
            r.subtype_1 matches Ok(v) && v is None,
    {
        RelPathOrWebUrl { subtype_0: Result::Ok(Option::None), subtype_1: Result::Ok(Option::None) }
    }
}

impl RelPathOrWebUrl {
    /// Supplies the URL alternative.
    pub fn subtype_0(self, value: Option<generated::WebUrl>) -> (r: Self)
        ensures
            r.subtype_0 matches Ok(v) && v == value,
            r.subtype_1 == self.subtype_1,
    {
        RelPathOrWebUrl { subtype_0: Result::Ok(value), subtype_1: self.subtype_1 }
    }

    /// Supplies the path alternative.
    pub fn subtype_1(self, value: Option<generated::RelPath>) -> (r: Self)
        ensures
            r.subtype_1 matches Ok(v) && v == value,
            r.subtype_0 == self.subtype_0,
    {
        RelPathOrWebUrl { subtype_0: self.subtype_0, subtype_1: Result::Ok(value) }
    }

    /// The finished value, once every field is supplied.
    pub fn build(self) -> (r: Result<generated::RelPathOrWebUrl, ConversionError>)
        ensures
            self.subtype_0 matches Ok(a) ==> (self.subtype_1 matches Ok(b) ==> (r matches Ok(v)
                && v.subtype_0 == a && v.subtype_1 == b)),
            (self.subtype_0 is Err || self.subtype_1 is Err) ==> r is Err,
    {
        let subtype_0 = match self.subtype_0 {
            Result::Ok(v) => v,
            Result::Err(e) => {
                return Result::Err(ConversionError::new(e.as_str()));
            },
        };
        let subtype_1 = match self.subtype_1 {
            Result::Ok(v) => v,
            Result::Err(e) => {
                return Result::Err(ConversionError::new(e.as_str()));
            },
        };
        Result::Ok(generated::RelPathOrWebUrl { subtype_0, subtype_1 })
    }
}

impl From<generated::RelPathOrWebUrl> for RelPathOrWebUrl {
    /// A builder primed with an existing value.
    fn from(value: generated::RelPathOrWebUrl) -> (r: Self) {
        RelPathOrWebUrl {
            subtype_0: Result::Ok(value.subtype_0),
            subtype_1: Result::Ok(value.subtype_1),
        }
    }
}

impl vstd::std_specs::convert::FromSpecImpl<generated::RelPathOrWebUrl> for RelPathOrWebUrl {
    open spec fn obeys_from_spec() -> bool {
        true
    }

    open spec fn from_spec(value: generated::RelPathOrWebUrl) -> Self {
        RelPathOrWebUrl {
            subtype_0: Result::Ok(value.subtype_0),
            subtype_1: Result::Ok(value.subtype_1),
        }
    }
}

} // verus!
