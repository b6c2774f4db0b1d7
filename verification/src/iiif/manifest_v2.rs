//! The version 2 presentation manifest: sequences of canvases of images,
//! with labels that carry per-language text values.

use vstd::prelude::*;
use vstd::string::StringExecFns;

use crate::iiif::one_or_many::OneTypeOrMany;
use crate::iiif::IiifError;
use crate::text::{join_strings, spec_join, str_eq};
use crate::util::lemma_filter_take_step;

verus! {

/// The manifest type tags of the version 2 schema.
#[derive(Debug, Clone, Copy, PartialEq, Eq, Structural)]
pub enum ManifestType {
    Manifest,
    Collection,
    Painting,
    Sequence,
    Canvas,
    Range,
}

/// One text value with the language it is written in.
#[derive(Debug, PartialEq)]
pub struct LanguageValuePair {
    pub language: String,
    pub value: String,
}

/// One label entry: plain text (no language) or a language-value pair.
#[derive(Debug, PartialEq)]
pub enum LabelTextValue {
    SimpleText(String),
    LanguageValuePair(LanguageValuePair),
}

/// The language of a label entry; plain text counts as the `none` language.
pub open spec fn value_language(v: LabelTextValue) -> Seq<char> {
    match v {
        LabelTextValue::SimpleText(_) => "none"@,
        LabelTextValue::LanguageValuePair(p) => p.language@,
    }
}

/// The text of a label entry.
pub open spec fn value_text(v: LabelTextValue) -> Seq<char> {
    match v {
        LabelTextValue::SimpleText(s) => s@,
        LabelTextValue::LanguageValuePair(p) => p.value@,
    }
}

impl LabelTextValue {
    /// The entry as a language-value pair; plain text gets the `none`
    /// language.
    pub fn get(&self) -> (r: LanguageValuePair)
        ensures
            r.language@ == value_language(*self),
            r.value@ == value_text(*self),
    {
        match self {
            LabelTextValue::SimpleText(v) => LanguageValuePair {
                language: String::from_str("none"),
                value: v.clone(),
            },
            LabelTextValue::LanguageValuePair(v) => LanguageValuePair {
                language: v.language.clone(),
                value: v.value.clone(),
            },
        }
    }
}

/// The language whose values a client should display for the preference
/// `lang`: the preference when any entry matches it, else the `none`
/// language when any entry carries it, else the first entry's language.
pub open spec fn selected_language(items: Seq<LabelTextValue>, lang: Seq<char>) -> Seq<char> {
    if exists|i: int| 0 <= i < items.len() && value_language(#[trigger] items[i]) == lang {
        lang
    } else if exists|i: int| 0 <= i < items.len() && value_language(#[trigger] items[i]) == "none"@ {
        "none"@
    } else {
        value_language(items[0])
    }
}

/// The texts of the entries written in the selected language, in order.
pub open spec fn selected_texts(items: Seq<LabelTextValue>, lang: Seq<char>) -> Seq<Seq<char>> {
    items.filter(|v: LabelTextValue| value_language(v) == selected_language(items, lang))
        .map_values(|v: LabelTextValue| value_text(v))
}

/// A label: one or many text entries.
#[derive(Debug, PartialEq)]
pub struct LabelText(pub OneTypeOrMany<LabelTextValue>);

impl LabelText {
    pub open spec fn items(self) -> Seq<LabelTextValue> {
        self.0.items()
    }

    /// The text values a client should display for the language preference
    /// `lang`, by the display rules of the presentation schema: all values
    /// matching the preferred language; else, when no entry carries a
    /// language, all values; else, when some entries carry no language,
    /// those; else all values of the first entry's language.
    pub fn get(&self, lang: &str) -> (r: Vec<String>)
        ensures
            self.items().len() > 0 ==> r.deep_view() == selected_texts(self.items(), lang@),
            self.items().len() == 0 ==> r.deep_view() == Seq::<Seq<char>>::empty(),
    {
        let lvp = self.0.iter();
        if lvp.len() == 0 {
            let r: Vec<String> = Vec::new();
            proof {
                assert(r.deep_view() =~= Seq::<Seq<char>>::empty());
            }
            return r;
        }
        let ghost items = self.items();

        // Pick the language to display.
        let mut has_lang = false;
        let mut has_none = false;
        let mut i: usize = 0;
        while i < lvp.len()
            invariant
                i <= lvp@.len(),
                lvp@.len() == items.len(),
                forall|j: int| 0 <= j < lvp@.len() ==> *(#[trigger] lvp@[j]) == items[j],
                has_lang == exists|j: int|
                    0 <= j < i && value_language(#[trigger] items[j]) == lang@,
                has_none == exists|j: int|
                    0 <= j < i && value_language(#[trigger] items[j]) == "none"@,
            decreases lvp@.len() - i,
        {
            if str_eq(language_of(lvp[i]), lang) {
                has_lang = true;
            }
            if str_eq(language_of(lvp[i]), "none") {
                has_none = true;
            }
            i = i + 1;
        }
        let sel: &str = if has_lang {
            lang
        } else if has_none {
            "none"
        } else {
            language_of(lvp[0])
        };
        assert(sel@ == selected_language(items, lang@));

        // Keep the values of the selected language, in order.
        let ghost pred = |v: LabelTextValue| value_language(v) == selected_language(items, lang@);
        let mut r: Vec<String> = Vec::new();
        proof {
            assert(items.take(0) =~= Seq::<LabelTextValue>::empty());
            reveal_with_fuel(Seq::filter, 1);
            assert(r.deep_view() =~= items.take(0).filter(pred).map_values(
                |v: LabelTextValue| value_text(v),
            ));
        }
        let mut k: usize = 0;
        while k < lvp.len()
            invariant
                k <= lvp@.len(),
                lvp@.len() == items.len(),
                forall|j: int| 0 <= j < lvp@.len() ==> *(#[trigger] lvp@[j]) == items[j],
                sel@ == selected_language(items, lang@),
                pred == (|v: LabelTextValue| value_language(v) == selected_language(items, lang@)),
                r.deep_view() == items.take(k as int).filter(pred).map_values(
                    |v: LabelTextValue| value_text(v),
                ),
            decreases lvp@.len() - k,
        {
            let ghost r_prev = r.deep_view();
            if str_eq(language_of(lvp[k]), sel) {
                r.push(text_of(lvp[k]));
                proof {
                    assert(r.deep_view() =~= r_prev.push(value_text(items[k as int])));
                }
            }
            proof {
                lemma_filter_take_step(items, k as int, pred);
                if pred(items[k as int]) {
                    assert(items.take(k as int + 1).filter(pred).map_values(
                        |v: LabelTextValue| value_text(v),
                    ) =~= items.take(k as int).filter(pred).map_values(
                        |v: LabelTextValue| value_text(v),
                    ).push(value_text(items[k as int])));
                }
            }
            k = k + 1;
        }
        proof {
            assert(items.take(items.len() as int) =~= items);
        }
        r
    }
}

/// The language of a label entry, as a string slice.
fn language_of(v: &LabelTextValue) -> (r: &str)
    ensures
        r@ == value_language(*v),
{
    match v {
        LabelTextValue::SimpleText(_) => "none",
        LabelTextValue::LanguageValuePair(p) => p.language.as_str(),
    }
}

/// The text of a label entry, as an owned string.
fn text_of(v: &LabelTextValue) -> (r: String)
    ensures
        r@ == value_text(*v),
{
    match v {
        LabelTextValue::SimpleText(s) => s.clone(),
        LabelTextValue::LanguageValuePair(p) => p.value.clone(),
    }
}

/// A link written either as a bare URI string or as an object with an id.
#[derive(Debug, PartialEq)]
pub enum UriLink {
    StringType(String),
    IdType { id: String },
}

impl UriLink {
    /// The linked URI.
    pub open spec fn spec_id(self) -> Seq<char> {
        match self {
            UriLink::StringType(v) => v@,
            UriLink::IdType { id } => id@,
        }
    }

    pub fn id(&self) -> (r: &str)
        ensures
            r@ == self.spec_id(),
    {
        match self {
            UriLink::StringType(v) => v.as_str(),
            UriLink::IdType { id } => id.as_str(),
        }
    }
}

/// The image service reference of an image resource.
#[derive(Debug, PartialEq)]
pub struct Service {
    pub id: String,
    pub profile: String,
}

/// An image resource: its id, its type tag, and its image service.
#[derive(Debug, PartialEq)]
pub struct ImageResource {
    pub id: String,
    pub type_: String,
    pub service: Service,
}

/// One image annotation of a canvas.
#[derive(Debug, PartialEq)]
pub struct Image {
    pub resource: ImageResource,
}

impl Image {
    pub fn get_service(&self) -> (r: &str)
        ensures
            r@ == self.resource.service.id@,
    {
        self.resource.service.id.as_str()
    }

    pub fn get_id(&self) -> (r: &str)
        ensures
            r@ == self.resource.id@,
    {
        self.resource.id.as_str()
    }

    pub fn get_type(&self) -> (r: &str)
        ensures
            r@ == self.resource.type_@,
    {
        self.resource.type_.as_str()
    }
}

/// One page of a sequence.
#[derive(Debug, PartialEq)]
pub struct Canvas {
    pub type_: ManifestType,
    pub label: LabelText,
    pub images: Vec<Image>,
    pub thumbnail: Option<OneTypeOrMany<UriLink>>,
}

impl Canvas {
    pub fn get_label(&self, language: &str) -> (r: Vec<String>)
        ensures
            self.label.items().len() > 0 ==> r.deep_view() == selected_texts(
                self.label.items(),
                language@,
            ),
            self.label.items().len() == 0 ==> r.deep_view() == Seq::<Seq<char>>::empty(),
    {
        self.label.get(language)
    }

    /// The canvas's thumbnail URL: the first listed thumbnail link when one
    /// is present and not empty; else a small rendition served by the first
    /// image's service; else nothing.
    pub fn get_thumbnail(&self) -> (r: String)
        ensures
            ({
                let from_list = self.thumbnail matches Option::Some(t) && t.items().len() > 0
                    && t.items()[0].spec_id().len() > 0;
                let from_service = self.images@.len() > 0
                    && self.images@[0].resource.service.id@.len() > 0;
                if from_list {
                    self.thumbnail matches Option::Some(t) && r@ == t.items()[0].spec_id()
                } else if from_service {
                    r@ == self.images@[0].resource.service.id@ + "/full/,64/0/default.jpg"@
                } else {
                    r@ == Seq::<char>::empty()
                }
            }),
    {
        match &self.thumbnail {
            Option::Some(t) => {
                let links = t.iter();
                if links.len() > 0 && links[0].id().unicode_len() > 0 {
                    return String::from_str(links[0].id());
                }
            },
            Option::None => {},
        }
        if self.images.len() > 0 && self.images[0].resource.service.id.as_str().unicode_len()
            > 0 {
            let mut url = self.images[0].resource.service.id.clone();
            url.append("/full/,64/0/default.jpg");
            return url;
        }
        String::new()
    }

    /// The image at the position, or a descriptive error past the end.
    pub fn get_image(&self, index: usize) -> (r: Result<&Image, IiifError>)
        ensures
            match r {
                Result::Ok(img) => index < self.images@.len() && img == &self.images@[index as int],
                Result::Err(_) => index >= self.images@.len(),
            },
    {
        if index < self.images.len() {
            Result::Ok(&self.images[index])
        } else {
            Result::Err(IiifError::IiifMissingInfo(String::from_str("missing image")))
        }
    }
}

/// An ordered run of canvases.
#[derive(Debug, PartialEq)]
pub struct Sequence {
    pub type_: ManifestType,
    pub label: Option<LabelText>,
    pub canvases: Vec<Canvas>,
}

impl Sequence {
    pub fn get_label(&self, language: &str) -> (r: Vec<String>)
        ensures
            match self.label {
                Option::Some(l) => (l.items().len() > 0 ==> r.deep_view() == selected_texts(
                    l.items(),
                    language@,
                )) && (l.items().len() == 0 ==> r.deep_view() == Seq::<Seq<char>>::empty()),
                Option::None => r.deep_view() == Seq::<Seq<char>>::empty(),
            },
    {
        match &self.label {
            Option::Some(l) => l.get(language),
            Option::None => {
                let r: Vec<String> = Vec::new();
                proof {
                    assert(r.deep_view() =~= Seq::<Seq<char>>::empty());
                }
                r
            },
        }
    }

    pub fn get_canvases(&self) -> (r: &Vec<Canvas>)
        ensures
            r == &self.canvases,
    {
        &self.canvases
    }

    /// The canvas at the position, or a descriptive error past the end.
    pub fn get_canvas(&self, index: usize) -> (r: Result<&Canvas, IiifError>)
        ensures
            match r {
                Result::Ok(c) => index < self.canvases@.len() && c == &self.canvases@[index as int],
                Result::Err(_) => index >= self.canvases@.len(),
            },
    {
        if index < self.canvases.len() {
            Result::Ok(&self.canvases[index])
        } else {
            Result::Err(IiifError::IiifMissingInfo(String::from_str("canvas not found")))
        }
    }
}

/// A version 2 presentation manifest.
#[derive(Debug, PartialEq)]
pub struct Manifest {
    pub type_: ManifestType,
    pub id: String,
    pub attribution: Option<LabelText>,
    pub label: LabelText,
    pub license: Option<OneTypeOrMany<UriLink>>,
    pub logo: Option<OneTypeOrMany<UriLink>>,
    pub description: Option<LabelText>,
    pub sequences: Vec<Sequence>,
}

impl Manifest {
    /// The manifest's title: its label values joined by newlines.
    pub fn get_title(&self, language: &str) -> (r: String)
        ensures
            self.label.items().len() > 0 ==> r@ == spec_join(
                selected_texts(self.label.items(), language@),
                "\n"@,
            ),
            self.label.items().len() == 0 ==> r@ == Seq::<char>::empty(),
    {
        let parts = self.label.get(language);
        let r = join_strings(&parts, "\n");
        proof {
            if self.label.items().len() == 0 {
                assert(parts.deep_view().len() == 0);
            }
        }
        r
    }

    pub fn get_attribution(&self, language: &str) -> (r: Vec<String>)
        ensures
            match self.attribution {
                Option::Some(l) => (l.items().len() > 0 ==> r.deep_view() == selected_texts(
                    l.items(),
                    language@,
                )) && (l.items().len() == 0 ==> r.deep_view() == Seq::<Seq<char>>::empty()),
                Option::None => r.deep_view() == Seq::<Seq<char>>::empty(),
            },
    {
        match &self.attribution {
            Option::Some(content) => content.get(language),
            Option::None => {
                let r: Vec<String> = Vec::new();
                proof {
                    assert(r.deep_view() =~= Seq::<Seq<char>>::empty());
                }
                r
            },
        }
    }

    /// Version 2 manifests carry no required statements.
    pub fn get_required_statements(&self, _language: &str) -> (r: Vec<String>)
        ensures
            r.deep_view() == Seq::<Seq<char>>::empty(),
    {
        let r: Vec<String> = Vec::new();
        proof {
            assert(r.deep_view() =~= Seq::<Seq<char>>::empty());
        }
        r
    }

    pub fn get_description(&self, language: &str) -> (r: Vec<String>)
        ensures
            match self.description {
                Option::Some(l) => (l.items().len() > 0 ==> r.deep_view() == selected_texts(
                    l.items(),
                    language@,
                )) && (l.items().len() == 0 ==> r.deep_view() == Seq::<Seq<char>>::empty()),
                Option::None => r.deep_view() == Seq::<Seq<char>>::empty(),
            },
    {
        match &self.description {
            Option::Some(content) => content.get(language),
            Option::None => {
                let r: Vec<String> = Vec::new();
                proof {
                    assert(r.deep_view() =~= Seq::<Seq<char>>::empty());
                }
                r
            },
        }
    }

    pub fn get_license(&self) -> (r: Vec<String>)
        ensures
            match self.license {
                Option::Some(links) => r.deep_view() == links.items().map_values(
                    |l: UriLink| l.spec_id(),
                ),
                Option::None => r.deep_view() == Seq::<Seq<char>>::empty(),
            },
    {
        link_ids(&self.license)
    }

    pub fn get_logo(&self) -> (r: Vec<String>)
        ensures
            match self.logo {
                Option::Some(links) => r.deep_view() == links.items().map_values(
                    |l: UriLink| l.spec_id(),
                ),
                Option::None => r.deep_view() == Seq::<Seq<char>>::empty(),
            },
    {
        link_ids(&self.logo)
    }

    pub fn get_sequences(&self) -> (r: &Vec<Sequence>)
        ensures
            r == &self.sequences,
    {
        &self.sequences
    }

    /// The sequence at the position, or a descriptive error past the end.
    pub fn get_sequence(&self, index: usize) -> (r: Result<&Sequence, IiifError>)
        ensures
            match r {
                Result::Ok(s) => index < self.sequences@.len() && s == &self.sequences@[
                    index as int
                ],
                Result::Err(_) => index >= self.sequences@.len(),
            },
    {
        if index < self.sequences.len() {
            Result::Ok(&self.sequences[index])
        } else {
            Result::Err(IiifError::IiifMissingInfo(String::from_str("sequence not found")))
        }
    }

    pub fn get_label(&self, language: &str) -> (r: Vec<String>)
        ensures
            self.label.items().len() > 0 ==> r.deep_view() == selected_texts(
                self.label.items(),
                language@,
            ),
            self.label.items().len() == 0 ==> r.deep_view() == Seq::<Seq<char>>::empty(),
    {
        self.label.get(language)
    }
}

/// The linked URIs of an optional link list.
fn link_ids(links: &Option<OneTypeOrMany<UriLink>>) -> (r: Vec<String>)
    ensures
        match links {
            Option::Some(ls) => r.deep_view() == ls.items().map_values(|l: UriLink| l.spec_id()),
            Option::None => r.deep_view() == Seq::<Seq<char>>::empty(),
        },
{
    match links {
        Option::Some(content) => {
            let items = content.iter();
            let mut r: Vec<String> = Vec::new();
            let mut i: usize = 0;
            while i < items.len()
                invariant
                    i <= items@.len(),
                    items@.len() == content.items().len(),
                    forall|j: int| 0 <= j < items@.len() ==> *(#[trigger] items@[j]) == content.items()[j],
                    r.deep_view().len() == i,
                    forall|j: int|
                        0 <= j < i ==> #[trigger] r.deep_view()[j] == content.items()[j].spec_id(),
                decreases items@.len() - i,
            {
                let ghost prev = r.deep_view();
                r.push(String::from_str(items[i].id()));
                proof {
                    assert(r.deep_view() =~= prev.push(content.items()[i as int].spec_id()));
                }
                i = i + 1;
            }
            proof {
                assert(r.deep_view() =~= content.items().map_values(|l: UriLink| l.spec_id()));
            }
            r
        },
        Option::None => {
            let r: Vec<String> = Vec::new();
            proof {
                assert(r.deep_view() =~= Seq::<Seq<char>>::empty());
            }
            r
        },
    }
}

} // verus!
