//! Mapping the contents of an OKH v1 manifest to an OKH v2 (LOSH)
//! manifest.
//!
//! Every function here is a pure mapping of values; reading the source
//! file, writing the result, and asking git for the last commit time all
//! happen outside this library. The commit time, when one is wanted for
//! the timestamp, is handed in as a plain epoch value.

use vstd::prelude::*;
use vstd::string::StringExecFns;

use crate::conversion::Error;
use crate::formats::v1;
use crate::formats::v2;
use crate::license::ensure_spdx_license_id;
use crate::license::spec_ensure_spdx;
use crate::oxrl::Odrl;
use crate::oxrl::Otrl;
use crate::scan::spec_file_name;
use crate::strutil::clone_opt_string;
use crate::strutil::lower_of;
use crate::strutil::push_char;
use crate::strutil::spec_i64_dec;
use crate::strutil::i64_to_dec;
use crate::strutil::str_eq;
use crate::strutil::to_lowercase;
use crate::strutil::trim;
use crate::strutil::trim_of;
use crate::strutil::trim_opt;

verus! {

/// The repository URL a manifest URL suggests: the part after the last
/// `/` separator (the whole URL when there is none).
pub fn shorten_to_repo_url(manifest_url: &str) -> (r: Option<String>)
    ensures
        (r matches Some(s) && s@ == spec_file_name(manifest_url@)),
{
    let len = manifest_url.unicode_len();
    let mut tail = String::new();
    let mut i: usize = 0;
    while i < len
        invariant
            i <= len,
            len == manifest_url@.len(),
            tail@ == spec_file_name(manifest_url@.take(i as int)),
        decreases len - i,
    {
        let c = manifest_url.get_char(i);
        proof {
            assert(manifest_url@.take(i + 1).drop_last() =~= manifest_url@.take(i as int));
            assert(manifest_url@.take(i + 1).last() == manifest_url@[i as int]);
        }
        if c == '/' {
            tail = String::new();
        } else {
            push_char(&mut tail, c);
        }
        i = i + 1;
    }
    proof {
        assert(manifest_url@.take(len as int) =~= manifest_url@);
    }
    Option::Some(tail)
}

/// The v2 version field: the trimmed v1 version, which must be present.
pub fn version(v1: &v1::Okh) -> (r: Result<String, Error>)
    ensures
        r is Ok <==> v1.version is Some,
        v1.version matches Some(v) ==> (r matches Ok(s) && s@ == trim_of(v@)),
        v1.version is None ==> (r matches Err(Error::InsufficientData { msg }) && msg@
            == "'version' is required for OKH LOSH"@),
{
    match &v1.version {
        Option::Some(v) => Result::Ok(trim(v.as_str())),
        Option::None => Result::Err(
            Error::InsufficientData { msg: "'version' is required for OKH LOSH" },
        ),
    }
}

/// The v2 repository field: the v1 documentation home, which must be
/// present.
pub fn repo(v1: &v1::Okh) -> (r: Result<String, Error>)
    ensures
        r is Ok <==> v1.documentation_home is Some,
        v1.documentation_home matches Some(u) ==> (r matches Ok(s) && s == u),
        v1.documentation_home is None ==> (r matches Err(Error::InsufficientData { msg }) && msg@
            == "OKH v1 'documentation_home' is required to convert to OKH LOSH"@),
{
    match &v1.documentation_home {
        Option::Some(u) => Result::Ok(u.clone()),
        Option::None => Result::Err(
            Error::InsufficientData {
                msg: "OKH v1 'documentation_home' is required to convert to OKH LOSH",
            },
        ),
    }
}

/// The v2 timestamp: the last commit time when one is known, else the v1
/// update date, else the v1 creation date, else nothing.
pub fn timestamp(v1: &v1::Okh, commit_epoch: Option<i64>) -> (r: Option<String>)
    ensures
        commit_epoch matches Some(t) ==> (r matches Some(s) && s@ == spec_i64_dec(t as int)),
        v1.date_updated matches Some(d) ==> (commit_epoch is None ==> (r matches Some(s) && s
            == d)),
        v1.date_created matches Some(d) ==> ((commit_epoch is None && v1.date_updated is None)
            ==> (r matches Some(s) && s == d)),
        (commit_epoch is None && v1.date_updated is None && v1.date_created is None) ==> r is None,
{
    match commit_epoch {
        Option::Some(t) => Option::Some(i64_to_dec(t)),
        Option::None => {
            if v1.date_updated.is_some() {
                clone_opt_string(&v1.date_updated)
            } else if v1.date_created.is_some() {
                clone_opt_string(&v1.date_created)
            } else {
                Option::None
            }
        },
    }
}

/// The project this one is derived from, if any: `derivative-of` wins
/// over `variant-of`.
pub open spec fn spec_parent(v1: v1::Okh) -> Option<v1::OtherThing> {
    if v1.derivative_of is Some {
        v1.derivative_of
    } else {
        v1.variant_of
    }
}

/// Whether a project reference can name a repository: it carries a
/// manifest URL or a web URL.
pub open spec fn spec_part_ok(p: v1::OtherThing) -> bool {
    p.manifest is Some || p.web is Some
}

/// The repository a project reference names: derived from its manifest
/// URL when present, else its web URL.
pub open spec fn spec_part_repo(p: v1::OtherThing) -> Option<Seq<char>> {
    match p.manifest {
        Option::Some(m) => Option::Some(spec_file_name(m@)),
        Option::None => match p.web {
            Option::Some(w) => Option::Some(w@),
            Option::None => Option::None,
        },
    }
}

/// The v2 fork-of field: the repository of the project this one derives
/// from, when the v1 manifest names one.
pub fn fork_of(v1: &v1::Okh) -> (r: Result<Option<String>, Error>)
    ensures
        spec_parent(*v1) is None ==> (r matches Ok(o) && o is None),
        spec_parent(*v1) matches Some(p) ==> {
            &&& (p.manifest matches Some(m) ==> (r matches Ok(o) && o matches Some(s) && s@
                == spec_file_name(m@)))
            &&& (p.web matches Some(w) ==> (p.manifest is None ==> (r matches Ok(o) && o
            matches Some(s) && s == w)))
            &&& ((p.manifest is None && p.web is None) ==> (r matches Err(
                Error::InsufficientData { msg },
            ) && msg@
                == "For 'derivative-of' and 'variant-of', at least one of 'web' and 'manifest' needs to be specified"@))
        },
        r is Ok <==> (spec_parent(*v1) matches Some(p) ==> spec_part_ok(p)),
{
    let parent = match &v1.derivative_of {
        Option::Some(p) => Option::Some(p),
        Option::None => v1.variant_of.as_ref(),
    };
    match parent {
        Option::None => Result::Ok(Option::None),
        Option::Some(p) => {
            if let Option::Some(manifest) = &p.manifest {
                Result::Ok(shorten_to_repo_url(manifest.as_str()))
            } else if let Option::Some(web) = &p.web {
                Result::Ok(Option::Some(web.clone()))
            } else {
                Result::Err(
                    Error::InsufficientData {
                        msg: "For 'derivative-of' and 'variant-of', at least one of 'web' and 'manifest' needs to be specified",
                    },
                )
            }
        },
    }
}

/// Glues one more section onto accumulated text: a line break between
/// non-empty text and the addition.
pub open spec fn spec_extend_section(cur: Seq<char>, extra: Seq<char>) -> Seq<char> {
    if cur.len() > 0 {
        cur + "\n"@ + extra
    } else {
        extra
    }
}

/// The v2 function text of a v1 manifest: the description, extended by
/// the trimmed intended use and the trimmed health and safety notice.
pub open spec fn spec_function(v1: v1::Okh) -> Seq<char> {
    let with_use = match v1.intended_use {
        Option::Some(iu) => spec_extend_section(v1.description@, trim_of(iu@)),
        Option::None => v1.description@,
    };
    match v1.health_safety_notice {
        Option::Some(h) => spec_extend_section(with_use, trim_of(h@)),
        Option::None => with_use,
    }
}

/// The v2 function text: what the hardware is and does.
pub fn function(v1: &v1::Okh) -> (r: String)
    ensures
        r@ == spec_function(*v1),
{
    proof {
        reveal_strlit("\n");
    }
    let mut out = v1.description.clone();
    if let Option::Some(intended_use) = &v1.intended_use {
        let section = trim(intended_use.as_str());
        let ghost pre = out@;
        if out.unicode_len() > 0 {
            push_char(&mut out, '\n');
        }
        out.append(section.as_str());
        proof {
            assert(out@ =~= spec_extend_section(pre, trim_of(intended_use@)));
        }
    }
    if let Option::Some(health_safety_notice) = &v1.health_safety_notice {
        let section = trim(health_safety_notice.as_str());
        let ghost pre = out@;
        if out.unicode_len() > 0 {
            push_char(&mut out, '\n');
        }
        out.append(section.as_str());
        proof {
            assert(out@ =~= spec_extend_section(pre, trim_of(health_safety_notice@)));
        }
    }
    out
}

/// The documentation readiness a v1 manifest witnesses.
pub fn documentation_readiness_level(v1: &v1::Okh) -> (r: Odrl)
    ensures
        r == (if v1.made_independently {
            Odrl::Full
        } else {
            Odrl::Started
        }),
{
    if v1.made_independently {
        Odrl::Full
    } else {
        Odrl::Started
    }
}

/// Whether a development stage names a prototype, in any letter case.
pub open spec fn spec_is_prototype(development_stage: Option<String>) -> bool {
    match development_stage {
        Option::Some(ds) => lower_of(ds@) == "prototype"@,
        Option::None => false,
    }
}

/// Whether the development stage names a prototype.
pub fn is_prototype(development_stage: &Option<String>) -> (r: bool)
    ensures
        r == spec_is_prototype(*development_stage),
{
    match development_stage {
        Option::Some(ds) => {
            let lower = to_lowercase(ds.as_str());
            str_eq(lower.as_str(), "prototype")
        },
        Option::None => false,
    }
}

/// The technology readiness a v1 manifest witnesses.
pub fn technology_readiness_level(v1: &v1::Okh) -> (r: Otrl)
    ensures
        r == (if v1.made_independently || v1.made || spec_is_prototype(v1.development_stage) {
            Otrl::Development
        } else {
            Otrl::Ideation
        }),
{
    if v1.made_independently || v1.made || is_prototype(&v1.development_stage) {
        Otrl::Development
    } else {
        Otrl::Ideation
    }
}

/// The v2 license: the hardware license when present, else the
/// documentation license, brought into SPDX form; a manifest with
/// neither has no license.
pub fn license(v1: &v1::Okh) -> (r: Result<String, Error>)
    ensures
        r is Ok <==> (v1.license.hardware is Some || v1.license.documentation is Some),
        v1.license.hardware matches Some(h) ==> (r matches Ok(s) && s@ == spec_ensure_spdx(h@)),
        v1.license.documentation matches Some(d) ==> (v1.license.hardware is None ==> (r matches
        Ok(s) && s@ == spec_ensure_spdx(d@))),
        (v1.license.hardware is None && v1.license.documentation is None) ==> (r matches Err(e)
            && e is NoLicense),
{
    if let Option::Some(lcse) = &v1.license.hardware {
        Result::Ok(ensure_spdx_license_id(lcse.as_str()))
    } else if let Option::Some(lcse) = &v1.license.documentation {
        Result::Ok(ensure_spdx_license_id(lcse.as_str()))
    } else {
        Result::Err(Error::NoLicense)
    }
}

/// The textual form of a licensor: the trimmed name, and the trimmed
/// email in angle brackets, separated by one space when both are there.
pub open spec fn spec_licensor_text(p: v1::Person) -> Seq<char> {
    let base = match p.name {
        Option::Some(n) => trim_of(n@),
        Option::None => Seq::<char>::empty(),
    };
    match p.email {
        Option::Some(e) => (if base.len() > 0 {
            base + " "@
        } else {
            base
        }) + "<"@ + trim_of(e@) + ">"@,
        Option::None => base,
    }
}

/// The v2 licensor: the v1 licensor, which must be present and carry a
/// name or an email, as one text.
pub fn licensor(v1: &v1::Okh) -> (r: Result<String, Error>)
    ensures
        r is Ok <==> (v1.licensor matches Some(p) && (p.name is Some || p.email is Some)),
        v1.licensor is None ==> (r matches Err(Error::InsufficientData { msg }) && msg@
            == "OKH v1 'licensor' is required to convert to OKH LOSH"@),
        v1.licensor matches Some(p) ==> ((p.name is None && p.email is None) ==> (r matches Err(
            Error::InsufficientData { msg },
        ) && msg@ == "'licensor' must define at least one of 'name' and 'email'"@)),
        v1.licensor matches Some(p) ==> ((p.name is Some || p.email is Some) ==> (r matches Ok(s)
            && s@ == spec_licensor_text(p))),
{
    let p = match &v1.licensor {
        Option::Some(p) => p,
        Option::None => {
            return Result::Err(
                Error::InsufficientData { msg: "OKH v1 'licensor' is required to convert to OKH LOSH" },
            );
        },
    };
    if p.name.is_none() && p.email.is_none() {
        return Result::Err(
            Error::InsufficientData { msg: "'licensor' must define at least one of 'name' and 'email'" },
        );
    }
    proof {
        reveal_strlit(" ");
        reveal_strlit("<");
        reveal_strlit(">");
    }
    let mut licensor_str = String::new();
    if let Option::Some(name) = &p.name {
        let trimmed = trim(name.as_str());
        licensor_str.append(trimmed.as_str());
    }
    let ghost base = licensor_str@;
    if let Option::Some(email) = &p.email {
        if licensor_str.unicode_len() > 0 {
            push_char(&mut licensor_str, ' ');
        }
        push_char(&mut licensor_str, '<');
        let trimmed = trim(email.as_str());
        licensor_str.append(trimmed.as_str());
        push_char(&mut licensor_str, '>');
        proof {
            assert(licensor_str@ =~= (if base.len() > 0 {
                base + " "@
            } else {
                base
            }) + "<"@ + trim_of(email@) + ">"@);
        }
    }
    Result::Ok(licensor_str)
}

/// The v2 software list: one entry per v1 software document, its title
/// as the label and its location as the release.
pub fn software(v1: &v1::Okh) -> (r: Vec<v2::Software>)
    ensures
        r@.len() == v1.software@.len(),
        forall|i: int|
            0 <= i < r@.len() ==> ((#[trigger] r@[i]).label == v1.software@[i].title
                && r@[i].release == v1.software@[i].path),
{
    let mut out: Vec<v2::Software> = Vec::new();
    let mut i: usize = 0;
    while i < v1.software.len()
        invariant
            i <= v1.software@.len(),
            out@.len() == i,
            forall|k: int|
                0 <= k < i ==> (#[trigger] out@[k]).label == v1.software@[k].title && out@[k].release
                    == v1.software@[k].path,
        decreases v1.software@.len() - i,
    {
        let sw = &v1.software[i];
        out.push(
            v2::Software {
                label: clone_opt_string(&sw.title),
                release: clone_opt_string(&sw.path),
            },
        );
        i = i + 1;
    }
    out
}

/// The standards one v1 entry contributes: its non-empty reference and
/// its non-empty title, trimmed.
pub open spec fn spec_standard_entry(s: v1::Standard) -> Seq<Seq<char>> {
    (if s.reference@.len() > 0 {
        seq![trim_of(s.reference@)]
    } else {
        Seq::<Seq<char>>::empty()
    }) + (if s.standard_title@.len() > 0 {
        seq![trim_of(s.standard_title@)]
    } else {
        Seq::<Seq<char>>::empty()
    })
}

/// The v2 standard list a v1 standards table yields, in table order.
pub open spec fn spec_standard_entries(stds: Seq<v1::Standard>) -> Seq<Seq<char>>
    decreases stds.len(),
{
    if stds.len() == 0 {
        Seq::empty()
    } else {
        spec_standard_entries(stds.drop_last()) + spec_standard_entry(stds.last())
    }
}

/// The v2 standard list: the non-empty references and titles of the v1
/// standards, trimmed, in table order.
pub fn standard(v1: &v1::Okh) -> (r: Vec<String>)
    ensures
        r.deep_view() == spec_standard_entries(v1.standards_used@),
{
    let mut out: Vec<String> = Vec::new();
    let mut i: usize = 0;
    while i < v1.standards_used.len()
        invariant
            i <= v1.standards_used@.len(),
            out.deep_view() == spec_standard_entries(v1.standards_used@.take(i as int)),
        decreases v1.standards_used@.len() - i,
    {
        proof {
            assert(v1.standards_used@.take(i + 1).drop_last() =~= v1.standards_used@.take(
                i as int,
            ));
            assert(v1.standards_used@.take(i + 1).last() == v1.standards_used@[i as int]);
        }
        let strd = &v1.standards_used[i];
        let ghost pre = out.deep_view();
        if strd.reference.unicode_len() > 0 {
            out.push(trim(strd.reference.as_str()));
        }
        let ghost mid = out.deep_view();
        if strd.standard_title.unicode_len() > 0 {
            out.push(trim(strd.standard_title.as_str()));
        }
        proof {
            assert(out.deep_view() =~= spec_standard_entries(v1.standards_used@.take(i + 1)));
        }
        i = i + 1;
    }
    proof {
        assert(v1.standards_used@.take(v1.standards_used@.len() as int) =~= v1.standards_used@);
    }
    out
}

/// The trimmed titles of all v1 standards, one compliance entry each.
pub open spec fn spec_compliance(stds: Seq<v1::Standard>) -> Seq<Seq<char>> {
    stds.map_values(|s: v1::Standard| trim_of(s.standard_title@))
}

/// The v2 standard-compliance list: the trimmed title of every v1
/// standard, in table order.
pub fn standard_compliance(v1: &v1::Okh) -> (r: Vec<String>)
    ensures
        r.deep_view() == spec_compliance(v1.standards_used@),
{
    let mut out: Vec<String> = Vec::new();
    let mut i: usize = 0;
    while i < v1.standards_used.len()
        invariant
            i <= v1.standards_used@.len(),
            out@.len() == i,
            forall|k: int|
                0 <= k < i ==> (#[trigger] out@[k])@ == trim_of(v1.standards_used@[k].standard_title@),
        decreases v1.standards_used@.len() - i,
    {
        let strd = &v1.standards_used[i];
        out.push(trim(strd.standard_title.as_str()));
        i = i + 1;
    }
    proof {
        assert(out.deep_view() =~= spec_compliance(v1.standards_used@));
    }
    out
}

/// The v2 parts list: one sub-module per v1 sub-part, each of which must
/// name a manifest or a web URL for its repository.
pub fn sub_mosh(v1: &v1::Okh) -> (r: Result<Vec<v2::SubMosh>, Error>)
    ensures
        r is Ok <==> (forall|i: int|
            0 <= i < v1.sub_parts@.len() ==> spec_part_ok(#[trigger] v1.sub_parts@[i])),
        r is Err ==> (r matches Err(Error::InsufficientData { msg }) && msg@
            == "For 'sub(-part)', at least one of 'web' and 'manifest' needs to be specified"@),
        r matches Ok(list) ==> {
            &&& list@.len() == v1.sub_parts@.len()
            &&& forall|i: int|
                0 <= i < list@.len() ==> {
                    let sm = #[trigger] list@[i];
                    let p = v1.sub_parts@[i];
                    &&& sm.name == p.title
                    &&& sm.manifest_file == p.manifest
                    &&& (sm.repo is Some <==> spec_part_repo(p) is Some)
                    &&& (sm.repo matches Some(s) ==> spec_part_repo(p) == Option::Some(s@))
                }
        },
{
    let mut out: Vec<v2::SubMosh> = Vec::new();
    let mut i: usize = 0;
    while i < v1.sub_parts.len()
        invariant
            i <= v1.sub_parts@.len(),
            out@.len() == i,
            forall|k: int| 0 <= k < i ==> spec_part_ok(#[trigger] v1.sub_parts@[k]),
            forall|k: int|
                0 <= k < i ==> {
                    let sm = #[trigger] out@[k];
                    let p = v1.sub_parts@[k];
                    &&& sm.name == p.title
                    &&& sm.manifest_file == p.manifest
                    &&& (sm.repo is Some <==> spec_part_repo(p) is Some)
                    &&& (sm.repo matches Some(s) ==> spec_part_repo(p) == Option::Some(s@))
                },
        decreases v1.sub_parts@.len() - i,
    {
        let parent = &v1.sub_parts[i];
        let part_repo: Option<String> = if let Option::Some(manifest) = &parent.manifest {
            shorten_to_repo_url(manifest.as_str())
        } else if let Option::Some(web) = &parent.web {
            Option::Some(web.clone())
        } else {
            return Result::Err(
                Error::InsufficientData {
                    msg: "For 'sub(-part)', at least one of 'web' and 'manifest' needs to be specified",
                },
            );
        };
        out.push(
            v2::SubMosh {
                name: clone_opt_string(&parent.title),
                manifest_file: clone_opt_string(&parent.manifest),
                repo: part_repo,
            },
        );
        i = i + 1;
    }
    Result::Ok(out)
}

/// The locations one document list yields: the `path` of every document
/// that has one, in list order.
pub open spec fn spec_doc_paths(docs: Seq<v1::Document>) -> Seq<Seq<char>>
    decreases docs.len(),
{
    if docs.len() == 0 {
        Seq::empty()
    } else {
        spec_doc_paths(docs.drop_last()) + match docs.last().path {
            Option::Some(p) => seq![p@],
            Option::None => Seq::<Seq<char>>::empty(),
        }
    }
}

/// Collects the locations of the documents that have one, in list order.
pub fn collect_doc_paths(docs: &Vec<v1::Document>) -> (r: Vec<String>)
    ensures
        r.deep_view() == spec_doc_paths(docs@),
{
    let mut out: Vec<String> = Vec::new();
    let mut i: usize = 0;
    while i < docs.len()
        invariant
            i <= docs@.len(),
            out.deep_view() == spec_doc_paths(docs@.take(i as int)),
        decreases docs@.len() - i,
    {
        proof {
            assert(docs@.take(i + 1).drop_last() =~= docs@.take(i as int));
            assert(docs@.take(i + 1).last() == docs@[i as int]);
        }
        if let Option::Some(path) = &docs[i].path {
            out.push(path.clone());
        }
        proof {
            assert(out.deep_view() =~= spec_doc_paths(docs@.take(i + 1)));
        }
        i = i + 1;
    }
    proof {
        assert(docs@.take(docs@.len() as int) =~= docs@);
    }
    out
}

/// The location of the first document that has one. Documents after the
/// first located one are ignored.
pub fn collect_doc_path(docs: &Vec<v1::Document>) -> (r: Option<String>)
    ensures
        r is Some <==> spec_doc_paths(docs@).len() > 0,
        r matches Some(s) ==> s@ == spec_doc_paths(docs@)[0],
{
    let all = collect_doc_paths(docs);
    if all.len() > 0 {
        proof {
            assert(all.deep_view()[0] == all@[0]@);
        }
        Option::Some(all[0].clone())
    } else {
        Option::None
    }
}

/// Whether a v1 manifest carries everything a v2 manifest requires:
/// a version, a documentation home, a repository for the derived-from
/// project if one is named, a hardware or documentation license, a
/// licensor with a name or email, and a manifest or web URL for every
/// sub-part.
pub open spec fn spec_convert_ok(v1: v1::Okh) -> bool {
    &&& v1.version is Some
    &&& v1.documentation_home is Some
    &&& spec_fork_ok(v1)
    &&& spec_license_ok(v1)
    &&& spec_licensor_ok(v1)
    &&& spec_parts_ok(v1)
}

/// Whether the derived-from reference, if any, names a repository.
pub open spec fn spec_fork_ok(v1: v1::Okh) -> bool {
    spec_parent(v1) matches Some(p) ==> spec_part_ok(p)
}

/// Whether a hardware or documentation license is declared.
pub open spec fn spec_license_ok(v1: v1::Okh) -> bool {
    v1.license.hardware is Some || v1.license.documentation is Some
}

/// Whether a licensor with a name or an email is declared.
pub open spec fn spec_licensor_ok(v1: v1::Okh) -> bool {
    v1.licensor matches Some(p) && (p.name is Some || p.email is Some)
}

/// Whether every sub-part names a manifest or a web URL.
pub open spec fn spec_parts_ok(v1: v1::Okh) -> bool {
    forall|i: int| 0 <= i < v1.sub_parts@.len() ==> spec_part_ok(#[trigger] v1.sub_parts@[i])
}

/// Converts the contents of an OKH v1 manifest to an OKH v2 manifest.
/// `commit_epoch` is the repository's last commit time, when the caller
/// knows one; it takes precedence for the timestamp. Fails on the first
/// missing datum, in field order; succeeds exactly on manifests that
/// satisfy [`spec_convert_ok`].
pub fn convert(v1: v1::Okh, commit_epoch: Option<i64>) -> (r: Result<v2::Okh, Error>)
    ensures
        r is Ok <==> spec_convert_ok(v1),
        v1.version is None ==> (r matches Err(Error::InsufficientData { msg }) && msg@
            == "'version' is required for OKH LOSH"@),
        (v1.version is Some && v1.documentation_home is None) ==> (r matches Err(
            Error::InsufficientData { msg },
        ) && msg@ == "OKH v1 'documentation_home' is required to convert to OKH LOSH"@),
        (v1.version is Some && v1.documentation_home is Some && !spec_fork_ok(v1)) ==> (r matches
        Err(Error::InsufficientData { msg }) && msg@
            == "For 'derivative-of' and 'variant-of', at least one of 'web' and 'manifest' needs to be specified"@),
        (v1.version is Some && v1.documentation_home is Some && spec_fork_ok(v1)
            && !spec_license_ok(v1)) ==> (r matches Err(e) && e is NoLicense),
        (v1.version is Some && v1.documentation_home is Some && spec_fork_ok(v1)
            && spec_license_ok(v1) && v1.licensor is None) ==> (r matches Err(
            Error::InsufficientData { msg },
        ) && msg@ == "OKH v1 'licensor' is required to convert to OKH LOSH"@),
        v1.licensor matches Some(p) ==> ((v1.version is Some && v1.documentation_home is Some
            && spec_fork_ok(v1) && spec_license_ok(v1) && p.name is None && p.email is None) ==> (
        r matches Err(Error::InsufficientData { msg }) && msg@
            == "'licensor' must define at least one of 'name' and 'email'"@)),
        (v1.version is Some && v1.documentation_home is Some && spec_fork_ok(v1)
            && spec_license_ok(v1) && spec_licensor_ok(v1) && !spec_parts_ok(v1)) ==> (r matches
        Err(Error::InsufficientData { msg }) && msg@
            == "For 'sub(-part)', at least one of 'web' and 'manifest' needs to be specified"@),
        r matches Ok(okh) ==> {
            &&& okh.okhv@ == "OKH-LOSHv1.0"@
            &&& okh.name@ == trim_of(v1.title@)
            &&& okh.organisation is None
            &&& okh.readme is None
            &&& okh.contribution_guide is None
            &&& okh.attestation@.len() == 0
            &&& okh.standard_compliance.deep_view() == spec_compliance(v1.standards_used@)
            &&& okh.cpc_patent_class is None
            &&& okh.tsdc is None
            &&& (v1.version matches Some(v) ==> okh.version@ == trim_of(v@))
            &&& (v1.image matches Some(img) ==> (okh.image@.len() == 1 && okh.image@[0] == img))
            &&& (v1.image is None ==> okh.image@.len() == 0)
            &&& (v1.documentation_home matches Some(u) ==> okh.repo == u)
            &&& (okh.documentation_language is Some <==> v1.documentation_language is Some)
            &&& (okh.documentation_language matches Some(s) ==> (v1.documentation_language
                matches Some(x) && s@ == trim_of(x@)))
            &&& okh.bom == v1.bom
            &&& okh.release == v1.archive_download
            &&& (commit_epoch matches Some(t) ==> (okh.timestamp matches Some(s) && s@
                == spec_i64_dec(t as int)))
            &&& (v1.date_updated matches Some(d) ==> (commit_epoch is None ==> (okh.timestamp
                matches Some(s) && s == d)))
            &&& (v1.date_created matches Some(d) ==> ((commit_epoch is None && v1.date_updated
                is None) ==> (okh.timestamp matches Some(s) && s == d)))
            &&& ((commit_epoch is None && v1.date_updated is None && v1.date_created is None)
                ==> okh.timestamp is None)
            &&& (spec_parent(v1) is None ==> okh.fork_of is None)
            &&& (spec_parent(v1) matches Some(p) ==> {
                &&& (p.manifest matches Some(m) ==> (okh.fork_of matches Some(s) && s@
                    == spec_file_name(m@)))
                &&& (p.web matches Some(w) ==> (p.manifest is None ==> (okh.fork_of matches
                Some(s) && s == w)))
            })
            &&& (okh.function matches Some(f) && f@ == spec_function(v1))
            &&& okh.documentation_readiness_level == Option::Some(
                if v1.made_independently {
                    Odrl::Full
                } else {
                    Odrl::Started
                },
            )
            &&& okh.technology_readiness_level == Option::Some(
                if v1.made_independently || v1.made || spec_is_prototype(v1.development_stage) {
                    Otrl::Development
                } else {
                    Otrl::Ideation
                },
            )
            &&& (v1.license.hardware matches Some(h) ==> okh.license@ == spec_ensure_spdx(h@))
            &&& (v1.license.documentation matches Some(d) ==> (v1.license.hardware is None
                ==> okh.license@ == spec_ensure_spdx(d@)))
            &&& (v1.licensor matches Some(p) ==> okh.licensor@ == spec_licensor_text(p))
            &&& okh.manufacturing_instructions.deep_view() == spec_doc_paths(
                v1.making_instructions@,
            )
            &&& (okh.user_manual is Some <==> spec_doc_paths(v1.operating_instructions@).len() > 0)
            &&& (okh.user_manual matches Some(s) ==> s@ == spec_doc_paths(
                v1.operating_instructions@,
            )[0])
            &&& okh.software@.len() == v1.software@.len()
            &&& (forall|i: int|
                0 <= i < okh.software@.len() ==> ((#[trigger] okh.software@[i]).label
                    == v1.software@[i].title && okh.software@[i].release == v1.software@[i].path))
            &&& okh.standard.deep_view() == spec_standard_entries(v1.standards_used@)
            &&& okh.source@.len() == 0
            &&& okh.export@.len() == 0
            &&& okh.auxiliary@.len() == 0
            &&& okh.part@.len() == v1.sub_parts@.len()
            &&& (forall|i: int|
                0 <= i < okh.part@.len() ==> {
                    let sm = #[trigger] okh.part@[i];
                    let p = v1.sub_parts@[i];
                    &&& sm.name == p.title
                    &&& sm.manifest_file == p.manifest
                    &&& (sm.repo is Some <==> spec_part_repo(p) is Some)
                    &&& (sm.repo matches Some(s) ==> spec_part_repo(p) == Option::Some(s@))
                })
        },
{
    let version = match version(&v1) {
        Result::Ok(v) => v,
        Result::Err(e) => {
            return Result::Err(e);
        },
    };
    let repo = match repo(&v1) {
        Result::Ok(u) => u,
        Result::Err(e) => {
            return Result::Err(e);
        },
    };
    let standard_compliance = standard_compliance(&v1);
    let timestamp = timestamp(&v1, commit_epoch);
    let fork_of = match fork_of(&v1) {
        Result::Ok(f) => f,
        Result::Err(e) => {
            return Result::Err(e);
        },
    };
    let function = Option::Some(function(&v1));
    let documentation_readiness_level = Option::Some(documentation_readiness_level(&v1));
    let technology_readiness_level = Option::Some(technology_readiness_level(&v1));
    let license = match license(&v1) {
        Result::Ok(l) => l,
        Result::Err(e) => {
            return Result::Err(e);
        },
    };
    let licensor = match licensor(&v1) {
        Result::Ok(l) => l,
        Result::Err(e) => {
            return Result::Err(e);
        },
    };
    let manufacturing_instructions = collect_doc_paths(&v1.making_instructions);
    let user_manual = collect_doc_path(&v1.operating_instructions);
    let software = software(&v1);
    let standard = standard(&v1);
    let part = match sub_mosh(&v1) {
        Result::Ok(p) => p,
        Result::Err(e) => {
            return Result::Err(e);
        },
    };
    let name = trim(v1.title.as_str());
    let documentation_language = trim_opt(&v1.documentation_language);
    let mut image: Vec<String> = Vec::new();
    if let Option::Some(img) = v1.image {
        image.push(img);
    }
    Result::Ok(
        v2::Okh {
            okhv: String::from_str(v2::okhv()),
            name,
            repo,
            version,
            license,
            licensor,
            organisation: Option::None,
            readme: Option::None,
            contribution_guide: Option::None,
            image,
            documentation_language,
            attestation: Vec::new(),
            standard_compliance,
            cpc_patent_class: Option::None,
            tsdc: Option::None,
            bom: v1.bom,
            release: v1.archive_download,
            timestamp,
            fork_of,
            function,
            documentation_readiness_level,
            technology_readiness_level,
            user_manual,
            manufacturing_instructions,
            software,
            standard,
            source: Vec::new(),
            export: Vec::new(),
            auxiliary: Vec::new(),
            part,
        },
    )
}

} // verus!
