//! The version 3 presentation manifest: canvases of annotation pages of
//! images, with labels that map languages to lists of text values.
//!
//! A version 3 label's language map is held as a list of key-value entries
//! with pairwise distinct keys, in the document's order.

use vstd::prelude::*;
use vstd::string::StringExecFns;
use vstd::utf8::encode_utf8;

use crate::iiif::one_or_many::OneTypeOrMany;
use crate::iiif::IiifError;
use crate::text::{
    bytes_le, join_strings, lemma_bytes_le_antisym, lemma_bytes_le_total, lemma_bytes_le_trans,
    spec_join, str_eq, str_le,
};

verus! {

/// The manifest type tags of the version 3 schema.
#[derive(Debug, Clone, Copy, PartialEq, Eq, Structural)]
pub enum ManifestType {
    Manifest,
    Collection,
}

/// A label: a map from language to text values, or bare text values.
#[derive(Debug, PartialEq)]
pub enum LabelText {
    LanguageMap(Vec<(String, Vec<String>)>),
    Text(OneTypeOrMany<String>),
}

/// The UTF-8 bytes of a map entry's language key.
pub open spec fn key_bytes(e: (String, Vec<String>)) -> Seq<u8> {
    encode_utf8(e.0@)
}

/// Pairwise distinct keys in a language map.
pub open spec fn map_entries_wf(entries: Seq<(String, Vec<String>)>) -> bool {
    forall|i: int, j: int|
        0 <= i < j < entries.len() ==> (#[trigger] entries[i]).0@ != (#[trigger] entries[j]).0@
}

/// Whether the map has an entry for the language `k`.
pub open spec fn has_key(entries: Seq<(String, Vec<String>)>, k: Seq<char>) -> bool {
    exists|i: int| 0 <= i < entries.len() && (#[trigger] entries[i]).0@ == k
}

/// The values of the entry for the language `k`.
pub open spec fn values_of(entries: Seq<(String, Vec<String>)>, k: Seq<char>) -> Seq<Seq<char>> {
    let i = choose|i: int| 0 <= i < entries.len() && (#[trigger] entries[i]).0@ == k;
    entries[i].1.deep_view()
}

/// Whether the entry at `i` carries the alphabetically first key.
pub open spec fn is_min_key(entries: Seq<(String, Vec<String>)>, i: int) -> bool {
    &&& 0 <= i < entries.len()
    &&& forall|j: int|
        0 <= j < entries.len() ==> bytes_le(key_bytes(entries[i]), key_bytes(#[trigger] entries[j]))
}

/// The values of the alphabetically first key (by UTF-8 byte order).
pub open spec fn min_key_values(entries: Seq<(String, Vec<String>)>) -> Seq<Seq<char>> {
    let i = choose|i: int| is_min_key(entries, i);
    entries[i].1.deep_view()
}

/// The values a client should display from a language map for the language
/// preference `lang`: all values under the `none` key when it is the only
/// key; else the preferred language's values when present; else, when no
/// entry is language-less, the values of the alphabetically first language;
/// else the language-less values.
pub open spec fn map_get_spec(entries: Seq<(String, Vec<String>)>, lang: Seq<char>) -> Seq<
    Seq<char>,
> {
    if entries.len() == 0 {
        Seq::empty()
    } else if has_key(entries, "none"@) && entries.len() == 1 {
        values_of(entries, "none"@)
    } else if has_key(entries, lang) {
        values_of(entries, lang)
    } else if !has_key(entries, "none"@) {
        min_key_values(entries)
    } else {
        values_of(entries, "none"@)
    }
}

/// The values a client should display for a label.
pub open spec fn label_get_spec(l: LabelText, lang: Seq<char>) -> Seq<Seq<char>> {
    match l {
        LabelText::Text(v) => v.items().map_values(|s: String| s@),
        LabelText::LanguageMap(entries) => map_get_spec(entries@, lang),
    }
}

/// A well-formed label: a map's keys are pairwise distinct.
pub open spec fn label_wf(l: LabelText) -> bool {
    match l {
        LabelText::Text(_) => true,
        LabelText::LanguageMap(entries) => map_entries_wf(entries@),
    }
}

impl LabelText {
    /// The text values a client should display for the language preference
    /// `lang`, by the display rules of the presentation schema.
    pub fn get(&self, lang: &str) -> (r: Vec<String>)
        requires
            label_wf(*self),
        ensures
            r.deep_view() == label_get_spec(*self, lang@),
    {
        match self {
            LabelText::Text(v) => {
                let items = v.iter();
                let mut r: Vec<String> = Vec::new();
                let mut i: usize = 0;
                while i < items.len()
                    invariant
                        i <= items@.len(),
                        items@.len() == v.items().len(),
                        forall|j: int|
                            0 <= j < items@.len() ==> *(#[trigger] items@[j]) == v.items()[j],
                        r.deep_view().len() == i,
                        forall|j: int|
                            0 <= j < i ==> #[trigger] r.deep_view()[j] == v.items()[j]@,
                    decreases items@.len() - i,
                {
                    let ghost prev = r.deep_view();
                    r.push(items[i].clone());
                    proof {
                        assert(r.deep_view() =~= prev.push(v.items()[i as int]@));
                    }
                    i = i + 1;
                }
                proof {
                    assert(r.deep_view() =~= v.items().map_values(|s: String| s@));
                }
                r
            },
            LabelText::LanguageMap(entries) => {
                if entries.len() == 0 {
                    let r: Vec<String> = Vec::new();
                    proof {
                        assert(r.deep_view() =~= Seq::<Seq<char>>::empty());
                    }
                    return r;
                }
                let none_at = find_key(entries, "none");
                if none_at.is_some() && entries.len() == 1 {
                    return copy_strings(&entries[none_at.unwrap()].1);
                }
                match find_key(entries, lang) {
                    Option::Some(i) => {
                        return copy_strings(&entries[i].1);
                    },
                    Option::None => {},
                }
                match none_at {
                    Option::Some(i) => copy_strings(&entries[i].1),
                    Option::None => {
                        let m = min_key_position(entries);
                        let r = copy_strings(&entries[m].1);
                        proof {
                            let i0 = choose|i: int| is_min_key(entries@, i);
                            assert(is_min_key(entries@, m as int));
                            assert(is_min_key(entries@, i0));
                            lemma_bytes_le_antisym(
                                key_bytes(entries@[m as int]),
                                key_bytes(entries@[i0]),
                            );
                            vstd::utf8::encode_utf8_decode_utf8(entries@[m as int].0@);
                            vstd::utf8::encode_utf8_decode_utf8(entries@[i0].0@);
                            assert(entries@[m as int].0@ == entries@[i0].0@);
                            if m as int != i0 {
                                assert(false);
                            }
                        }
                        r
                    },
                }
            },
        }
    }
}

/// The position of the entry for the language `k`, if one is present.
fn find_key(entries: &Vec<(String, Vec<String>)>, k: &str) -> (r: Option<usize>)
    ensures
        match r {
            Option::Some(i) => i < entries@.len() && entries@[i as int].0@ == k@,
            Option::None => !has_key(entries@, k@),
        },
{
    let mut i: usize = 0;
    while i < entries.len()
        invariant
            i <= entries@.len(),
            forall|j: int| 0 <= j < i ==> (#[trigger] entries@[j]).0@ != k@,
        decreases entries@.len() - i,
    {
        if str_eq(entries[i].0.as_str(), k) {
            return Option::Some(i);
        }
        i = i + 1;
    }
    Option::None
}

/// The position of the alphabetically first key.
fn min_key_position(entries: &Vec<(String, Vec<String>)>) -> (m: usize)
    requires
        entries@.len() > 0,
    ensures
        is_min_key(entries@, m as int),
{
    let mut m: usize = 0;
    let mut i: usize = 1;
    proof {
        crate::text::lemma_bytes_le_refl(key_bytes(entries@[0]));
    }
    while i < entries.len()
        invariant
            m < i <= entries@.len(),
            forall|j: int|
                0 <= j < i ==> bytes_le(
                    key_bytes(entries@[m as int]),
                    key_bytes(#[trigger] entries@[j]),
                ),
        decreases entries@.len() - i,
    {
        if !str_le(entries[m].0.as_str(), entries[i].0.as_str()) {
            proof {
                lemma_bytes_le_total(key_bytes(entries@[m as int]), key_bytes(entries@[i as int]));
                crate::text::lemma_bytes_le_refl(key_bytes(entries@[i as int]));
                assert forall|j: int|
                    0 <= j < i + 1 implies bytes_le(
                    key_bytes(entries@[i as int]),
                    key_bytes(#[trigger] entries@[j]),
                ) by {
                    if j < i {
                        lemma_bytes_le_trans(
                            key_bytes(entries@[i as int]),
                            key_bytes(entries@[m as int]),
                            key_bytes(entries@[j]),
                        );
                    }
                }
            }
            m = i;
        }
        i = i + 1;
    }
    m
}

/// One label-value pair of a required statement.
#[derive(Debug, PartialEq)]
pub struct LabelValue {
    pub label: LabelText,
    pub value: LabelText,
}

/// The resource types of the version 3 schema.
#[derive(Debug, Clone, Copy, PartialEq, Eq, Structural)]
pub enum DataType {
    Image,
    Dataset,
    Model,
    Sound,
    Text,
    Video,
}

/// A version 3 image service reference.
#[derive(Debug, PartialEq)]
pub struct Service3 {
    pub id: String,
    pub profile: String,
}

/// An image service reference of either schema version.
#[derive(Debug, PartialEq)]
pub enum Service {
    Service2(crate::iiif::manifest_v2::Service),
    Service3(Service3),
}

impl Service {
    /// The service's base URL.
    pub open spec fn spec_id(self) -> Seq<char> {
        match self {
            Service::Service2(v) => v.id@,
            Service::Service3(v) => v.id@,
        }
    }

    pub fn get_id(&self) -> (r: &str)
        ensures
            r@ == self.spec_id(),
    {
        match self {
            Service::Service2(v) => v.id.as_str(),
            Service::Service3(v) => v.id.as_str(),
        }
    }
}

/// A thumbnail reference.
#[derive(Debug, PartialEq)]
pub struct Thumbnail {
    pub id: String,
    pub type_: DataType,
}

/// The organisation that provides the manifest.
#[derive(Debug, PartialEq)]
pub struct Provider {
    pub id: String,
    pub type_: String,
    pub label: LabelText,
    pub logo: OneTypeOrMany<Thumbnail>,
}

/// The body of an image annotation: the image's id, type, and services.
#[derive(Debug, PartialEq)]
pub struct AnnotationItemBody {
    pub id: String,
    pub type_: String,
    pub service: Option<Vec<Service>>,
}

/// One image annotation.
#[derive(Debug, PartialEq)]
pub struct AnnotationItem {
    pub id: String,
    pub type_: String,
    pub body: AnnotationItemBody,
}

impl AnnotationItem {
    /// The base URL of the image's first service; empty without services.
    pub open spec fn spec_service(self) -> Seq<char> {
        match self.body.service {
            Option::Some(services) => if services@.len() > 0 {
                services@[0].spec_id()
            } else {
                Seq::empty()
            },
            Option::None => Seq::empty(),
        }
    }

    pub fn get_service(&self) -> (r: &str)
        ensures
            r@ == self.spec_service(),
    {
        proof {
            reveal_strlit("");
        }
        match &self.body.service {
            Option::Some(services) => {
                if services.len() > 0 {
                    services[0].get_id()
                } else {
                    ""
                }
            },
            Option::None => "",
        }
    }

    pub fn get_id(&self) -> (r: &str)
        ensures
            r@ == self.body.id@,
    {
        self.body.id.as_str()
    }

    pub fn get_type(&self) -> (r: &str)
        ensures
            r@ == self.body.type_@,
    {
        self.body.type_.as_str()
    }
}

/// One page of annotations of a canvas.
#[derive(Debug, PartialEq)]
pub struct AnnotationPageItem {
    pub id: String,
    pub type_: String,
    pub items: Vec<AnnotationItem>,
}

/// One canvas: a page of the document.
#[derive(Debug, PartialEq)]
pub struct CanvasItem {
    pub id: String,
    pub type_: String,
    pub label: Option<LabelText>,
    pub thumbnail: Option<OneTypeOrMany<Thumbnail>>,
    pub items: Vec<AnnotationPageItem>,
}

impl CanvasItem {
    pub fn get_label(&self, language: &str) -> (r: Vec<String>)
        requires
            match self.label {
                Option::Some(l) => label_wf(l),
                Option::None => true,
            },
        ensures
            match self.label {
                Option::Some(l) => r.deep_view() == label_get_spec(l, language@),
                Option::None => r.deep_view() == Seq::<Seq<char>>::empty(),
            },
    {
        match &self.label {
            Option::Some(label) => label.get(language),
            Option::None => {
                let r: Vec<String> = Vec::new();
                proof {
                    assert(r.deep_view() =~= Seq::<Seq<char>>::empty());
                }
                r
            },
        }
    }

    /// The canvas's thumbnail URL: the first listed thumbnail when present
    /// and not empty; else a small rendition served by the first image's
    /// service; else nothing.
    pub fn get_thumbnail(&self) -> (r: String)
        ensures
            ({
                let from_list = self.thumbnail matches Option::Some(t) && t.items().len() > 0
                    && t.items()[0].id@.len() > 0;
                let from_service = self.items@.len() > 0 && self.items@[0].items@.len() > 0
                    && self.items@[0].items@[0].spec_service().len() > 0;
                if from_list {
                    self.thumbnail matches Option::Some(t) && r@ == t.items()[0].id@
                } else if from_service {
                    r@ == self.items@[0].items@[0].spec_service() + "/full/,64/0/default.jpg"@
                } else {
                    r@ == Seq::<char>::empty()
                }
            }),
    {
        match &self.thumbnail {
            Option::Some(t) => {
                let links = t.iter();
                if links.len() > 0 && links[0].id.as_str().unicode_len() > 0 {
                    return links[0].id.clone();
                }
            },
            Option::None => {},
        }
        if self.items.len() > 0 && self.items[0].items.len() > 0 {
            let service = self.items[0].items[0].get_service();
            if service.unicode_len() > 0 {
                let mut url = String::from_str(service);
                url.append("/full/,64/0/default.jpg");
                return url;
            }
        }
        String::new()
    }

    /// The first image of the annotation page at the position, or a
    /// descriptive error when the page or its first image is missing.
    pub fn get_image(&self, index: usize) -> (r: Result<&AnnotationItem, IiifError>)
        ensures
            match r {
                Result::Ok(img) => index < self.items@.len() && self.items@[index as int].items@.len()
                    > 0 && img == &self.items@[index as int].items@[0],
                Result::Err(_) => index >= self.items@.len() || self.items@[
                    index as int
                ].items@.len() == 0,
            },
    {
        if index < self.items.len() {
            if self.items[index].items.len() > 0 {
                Result::Ok(&self.items[index].items[0])
            } else {
                Result::Err(IiifError::IiifMissingInfo(String::from_str("missing annotation item")))
            }
        } else {
            Result::Err(IiifError::IiifMissingInfo(String::from_str("missing annotation page")))
        }
    }
}

/// A version 3 presentation manifest.
#[derive(Debug, PartialEq)]
pub struct Manifest {
    pub context: OneTypeOrMany<String>,
    pub manifest_type: ManifestType,
    pub label: LabelText,
    pub summary: Option<OneTypeOrMany<LabelText>>,
    pub rights: Option<String>,
    pub required_statement: Option<LabelValue>,
    pub provider: Option<Vec<Provider>>,
    pub items: Vec<CanvasItem>,
}

/// The attribution texts of a provider list: each provider's label values,
/// concatenated in order.
pub open spec fn providers_texts(ps: Seq<Provider>, lang: Seq<char>) -> Seq<Seq<char>>
    decreases ps.len(),
{
    if ps.len() == 0 {
        Seq::empty()
    } else {
        providers_texts(ps.drop_last(), lang) + label_get_spec(ps.last().label, lang)
    }
}

/// The logo URLs of a provider list, concatenated in order.
pub open spec fn providers_logos(ps: Seq<Provider>) -> Seq<Seq<char>>
    decreases ps.len(),
{
    if ps.len() == 0 {
        Seq::empty()
    } else {
        providers_logos(ps.drop_last()) + ps.last().logo.items().map_values(
            |t: Thumbnail| t.id@,
        )
    }
}

/// The description texts of a summary: each label's values, concatenated.
pub open spec fn summary_texts(ls: Seq<LabelText>, lang: Seq<char>) -> Seq<Seq<char>>
    decreases ls.len(),
{
    if ls.len() == 0 {
        Seq::empty()
    } else {
        summary_texts(ls.drop_last(), lang) + label_get_spec(ls.last(), lang)
    }
}

impl Manifest {
    /// The manifest's title: its label values joined by newlines.
    pub fn get_title(&self, language: &str) -> (r: String)
        requires
            label_wf(self.label),
        ensures
            r@ == spec_join(label_get_spec(self.label, language@), "\n"@),
    {
        let parts = self.label.get(language);
        join_strings(&parts, "\n")
    }

    /// The attribution texts: every provider's label values for the
    /// language, in order.
    pub fn get_attribution(&self, language: &str) -> (r: Vec<String>)
        requires
            match self.provider {
                Option::Some(ps) => forall|i: int|
                    0 <= i < ps@.len() ==> label_wf((#[trigger] ps@[i]).label),
                Option::None => true,
            },
        ensures
            match self.provider {
                Option::Some(ps) => r.deep_view() == providers_texts(ps@, language@),
                Option::None => r.deep_view() == Seq::<Seq<char>>::empty(),
            },
    {
        match &self.provider {
            Option::Some(ps) => {
                let mut r: Vec<String> = Vec::new();
                let mut i: usize = 0;
                proof {
                    assert(ps@.take(0) =~= Seq::<Provider>::empty());
                    assert(r.deep_view() =~= providers_texts(ps@.take(0), language@));
                }
                while i < ps.len()
                    invariant
                        i <= ps@.len(),
                        forall|k: int|
                            0 <= k < ps@.len() ==> label_wf((#[trigger] ps@[k]).label),
                        r.deep_view() == providers_texts(ps@.take(i as int), language@),
                    decreases ps@.len() - i,
                {
                    let part = ps[i].label.get(language);
                    append_strings(&mut r, part);
                    proof {
                        assert(ps@.take(i + 1).drop_last() =~= ps@.take(i as int));
                        assert(ps@.take(i + 1).last() == ps@[i as int]);
                    }
                    i = i + 1;
                }
                proof {
                    assert(ps@.take(ps@.len() as int) =~= ps@);
                }
                r
            },
            Option::None => {
                let r: Vec<String> = Vec::new();
                proof {
                    assert(r.deep_view() =~= Seq::<Seq<char>>::empty());
                }
                r
            },
        }
    }

    /// The required statements: each statement label paired with its value,
    /// written `label: value`, for as many pairs as both lists hold.
    pub fn get_required_statements(&self, language: &str) -> (r: Vec<String>)
        requires
            match self.required_statement {
                Option::Some(rs) => label_wf(rs.label) && label_wf(rs.value),
                Option::None => true,
            },
        ensures
            match self.required_statement {
                Option::Some(rs) => {
                    let labels = label_get_spec(rs.label, language@);
                    let vals = label_get_spec(rs.value, language@);
                    let n = vstd::math::min(labels.len() as int, vals.len() as int);
                    &&& r.deep_view().len() == n
                    &&& forall|i: int|
                        0 <= i < n ==> #[trigger] r.deep_view()[i] == labels[i] + ": "@ + vals[i]
                },
                Option::None => r.deep_view() == Seq::<Seq<char>>::empty(),
            },
    {
        match &self.required_statement {
            Option::Some(rs) => {
                let labels = rs.label.get(language);
                let vals = rs.value.get(language);
                let n = if labels.len() <= vals.len() {
                    labels.len()
                } else {
                    vals.len()
                };
                let mut r: Vec<String> = Vec::new();
                let mut i: usize = 0;
                while i < n
                    invariant
                        i <= n,
                        n == vstd::math::min(
                            labels.deep_view().len() as int,
                            vals.deep_view().len() as int,
                        ),
                        labels.deep_view() == label_get_spec(
                            self.required_statement->Some_0.label,
                            language@,
                        ),
                        vals.deep_view() == label_get_spec(
                            self.required_statement->Some_0.value,
                            language@,
                        ),
                        self.required_statement is Some,
                        r.deep_view().len() == i,
                        forall|k: int|
                            0 <= k < i ==> #[trigger] r.deep_view()[k] == labels.deep_view()[k]
                                + ": "@ + vals.deep_view()[k],
                    decreases n - i,
                {
                    let ghost prev = r.deep_view();
                    let mut s = labels[i].clone();
                    s.append(": ");
                    s.append(vals[i].as_str());
                    r.push(s);
                    proof {
                        assert(r.deep_view() =~= prev.push(
                            labels.deep_view()[i as int] + ": "@ + vals.deep_view()[i as int],
                        ));
                    }
                    i = i + 1;
                }
                r
            },
            Option::None => {
                let r: Vec<String> = Vec::new();
                proof {
                    assert(r.deep_view() =~= Seq::<Seq<char>>::empty());
                }
                r
            },
        }
    }

    /// The description texts: every summary label's values, in order.
    pub fn get_description(&self, language: &str) -> (r: Vec<String>)
        requires
            match self.summary {
                Option::Some(ls) => forall|i: int|
                    0 <= i < ls.items().len() ==> label_wf(#[trigger] ls.items()[i]),
                Option::None => true,
            },
        ensures
            match self.summary {
                Option::Some(ls) => r.deep_view() == summary_texts(ls.items(), language@),
                Option::None => r.deep_view() == Seq::<Seq<char>>::empty(),
            },
    {
        match &self.summary {
            Option::Some(ls) => {
                let items = ls.iter();
                let mut r: Vec<String> = Vec::new();
                let mut i: usize = 0;
                proof {
                    assert(ls.items().take(0) =~= Seq::<LabelText>::empty());
                    assert(r.deep_view() =~= summary_texts(ls.items().take(0), language@));
                }
                while i < items.len()
                    invariant
                        i <= items@.len(),
                        items@.len() == ls.items().len(),
                        forall|j: int|
                            0 <= j < items@.len() ==> *(#[trigger] items@[j]) == ls.items()[j],
                        forall|k: int|
                            0 <= k < ls.items().len() ==> label_wf(#[trigger] ls.items()[k]),
                        r.deep_view() == summary_texts(ls.items().take(i as int), language@),
                    decreases items@.len() - i,
                {
                    let part = items[i].get(language);
                    append_strings(&mut r, part);
                    proof {
                        assert(ls.items().take(i + 1).drop_last() =~= ls.items().take(i as int));
                        assert(ls.items().take(i + 1).last() == ls.items()[i as int]);
                    }
                    i = i + 1;
                }
                proof {
                    assert(ls.items().take(ls.items().len() as int) =~= ls.items());
                }
                r
            },
            Option::None => {
                let r: Vec<String> = Vec::new();
                proof {
                    assert(r.deep_view() =~= Seq::<Seq<char>>::empty());
                }
                r
            },
        }
    }

    /// The license: the rights URL, when one is declared.
    pub fn get_license(&self) -> (r: Vec<String>)
        ensures
            match self.rights {
                Option::Some(u) => r.deep_view() == seq![u@],
                Option::None => r.deep_view() == Seq::<Seq<char>>::empty(),
            },
    {
        match &self.rights {
            Option::Some(u) => {
                let mut r: Vec<String> = Vec::new();
                r.push(u.clone());
                proof {
                    assert(r.deep_view() =~= seq![self.rights->Some_0@]);
                }
                r
            },
            Option::None => {
                let r: Vec<String> = Vec::new();
                proof {
                    assert(r.deep_view() =~= Seq::<Seq<char>>::empty());
                }
                r
            },
        }
    }

    /// The logo URLs: every provider's logos, in order.
    pub fn get_logo(&self) -> (r: Vec<String>)
        ensures
            match self.provider {
                Option::Some(ps) => r.deep_view() == providers_logos(ps@),
                Option::None => r.deep_view() == Seq::<Seq<char>>::empty(),
            },
    {
        match &self.provider {
            Option::Some(ps) => {
                let mut r: Vec<String> = Vec::new();
                let mut i: usize = 0;
                proof {
                    assert(ps@.take(0) =~= Seq::<Provider>::empty());
                    assert(r.deep_view() =~= providers_logos(ps@.take(0)));
                }
                while i < ps.len()
                    invariant
                        i <= ps@.len(),
                        r.deep_view() == providers_logos(ps@.take(i as int)),
                    decreases ps@.len() - i,
                {
                    let logos = ps[i].logo.iter();
                    let ghost before = r.deep_view();
                    let mut j: usize = 0;
                    while j < logos.len()
                        invariant
                            j <= logos@.len(),
                            logos@.len() == ps@[i as int].logo.items().len(),
                            i < ps@.len(),
                            forall|k: int|
                                0 <= k < logos@.len() ==> *(#[trigger] logos@[k]) == ps@[
                                    i as int
                                ].logo.items()[k],
                            r.deep_view().len() == before.len() + j,
                            forall|k: int|
                                0 <= k < before.len() ==> #[trigger] r.deep_view()[k] == before[k],
                            forall|k: int|
                                0 <= k < j ==> #[trigger] r.deep_view()[before.len() + k] == ps@[
                                    i as int
                                ].logo.items()[k].id@,
                        decreases logos@.len() - j,
                    {
                        let ghost prev = r.deep_view();
                        r.push(logos[j].id.clone());
                        proof {
                            assert(r.deep_view() =~= prev.push(
                                ps@[i as int].logo.items()[j as int].id@,
                            ));
                        }
                        j = j + 1;
                    }
                    proof {
                        assert(ps@.take(i + 1).drop_last() =~= ps@.take(i as int));
                        assert(ps@.take(i + 1).last() == ps@[i as int]);
                        assert forall|m: int|
                            before.len() <= m < r.deep_view().len() implies #[trigger] r.deep_view()[m]
                            == ps@[i as int].logo.items()[m - before.len()].id@ by {
                            assert(r.deep_view()[before.len() + (m - before.len())] == ps@[
                                i as int
                            ].logo.items()[m - before.len()].id@);
                        }
                        assert(r.deep_view() =~= before + ps@[i as int].logo.items().map_values(
                            |t: Thumbnail| t.id@,
                        ));
                    }
                    i = i + 1;
                }
                proof {
                    assert(ps@.take(ps@.len() as int) =~= ps@);
                }
                r
            },
            Option::None => {
                let r: Vec<String> = Vec::new();
                proof {
                    assert(r.deep_view() =~= Seq::<Seq<char>>::empty());
                }
                r
            },
        }
    }

    /// A version 3 manifest is its own single sequence of canvases.
    pub fn get_canvases(&self) -> (r: &Vec<CanvasItem>)
        ensures
            r == &self.items,
    {
        &self.items
    }

    /// The canvas at the position, or a descriptive error past the end.
    pub fn get_canvas(&self, index: usize) -> (r: Result<&CanvasItem, IiifError>)
        ensures
            match r {
                Result::Ok(c) => index < self.items@.len() && c == &self.items@[index as int],
                Result::Err(_) => index >= self.items@.len(),
            },
    {
        if index < self.items.len() {
            Result::Ok(&self.items[index])
        } else {
            Result::Err(IiifError::IiifMissingInfo(String::from_str("canvas not found")))
        }
    }
}

/// Move all strings of `more` onto the end of `r`.
fn append_strings(r: &mut Vec<String>, more: Vec<String>)
    ensures
        final(r).deep_view() == old(r).deep_view() + more.deep_view(),
{
    let mut i: usize = 0;
    while i < more.len()
        invariant
            i <= more@.len(),
            r.deep_view() == old(r).deep_view() + more.deep_view().take(i as int),
        decreases more@.len() - i,
    {
        let ghost prev = r.deep_view();
        r.push(more[i].clone());
        proof {
            assert(more.deep_view()[i as int] == more@[i as int]@);
            assert(r.deep_view() =~= prev.push(more@[i as int]@));
            assert(r.deep_view() =~= old(r).deep_view() + more.deep_view().take(i as int + 1));
        }
        i = i + 1;
    }
    proof {
        assert(more.deep_view().take(more@.len() as int) =~= more.deep_view());
    }
}

/// A copy of a list of strings.
fn copy_strings(v: &Vec<String>) -> (r: Vec<String>)
    ensures
        r.deep_view() == v.deep_view(),
{
    let mut r: Vec<String> = Vec::new();
    let mut i: usize = 0;
    while i < v.len()
        invariant
            i <= v@.len(),
            r.deep_view().len() == i,
            forall|j: int| 0 <= j < i ==> #[trigger] r.deep_view()[j] == v.deep_view()[j],
        decreases v@.len() - i,
    {
        let ghost prev = r.deep_view();
        r.push(v[i].clone());
        proof {
            assert(r.deep_view() =~= prev.push(v@[i as int]@));
        }
        i = i + 1;
    }
    proof {
        assert(r.deep_view() =~= v.deep_view());
    }
    r
}

} // verus!
