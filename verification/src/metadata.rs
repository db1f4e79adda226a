//! The tags that a decoder reports of a module.

use vstd::prelude::*;
use vstd::string::StrSliceExecFns;

verus! {

/// The closed set of tag names.
#[derive(Clone, Copy, Debug, PartialEq, Eq, Structural)]
pub enum MetadataKey {
    Type,
    TypeLong,
    OriginalType,
    OriginalTypeLong,
    Container,
    ContainerLong,
    Tracker,
    Artist,
    Title,
    Date,
    Message,
    MessageRaw,
    Warnings,
}

/// One tag of a module: which one, and its text.
#[derive(Clone, Debug, PartialEq, Eq)]
pub enum Metadata {
    Type(String),
    TypeLong(String),
    OriginalType(String),
    OriginalTypeLong(String),
    Container(String),
    ContainerLong(String),
    Tracker(String),
    Artist(String),
    Title(String),
    Date(String),
    Message(String),
    MessageRaw(String),
    Warnings(String),
}

/// A tag as a plain value.
pub struct MetadataView {
    pub key: MetadataKey,
    pub value: Seq<char>,
}

impl View for Metadata {
    type V = MetadataView;

    open spec fn view(&self) -> MetadataView {
        match *self {
            Metadata::Type(value) => MetadataView { key: MetadataKey::Type, value: value@ },
            Metadata::TypeLong(value) => MetadataView { key: MetadataKey::TypeLong, value: value@ },
            Metadata::OriginalType(value) => MetadataView { key: MetadataKey::OriginalType, value: value@ },
            Metadata::OriginalTypeLong(value) => MetadataView { key: MetadataKey::OriginalTypeLong, value: value@ },
            Metadata::Container(value) => MetadataView { key: MetadataKey::Container, value: value@ },
            Metadata::ContainerLong(value) => MetadataView { key: MetadataKey::ContainerLong, value: value@ },
            Metadata::Tracker(value) => MetadataView { key: MetadataKey::Tracker, value: value@ },
            Metadata::Artist(value) => MetadataView { key: MetadataKey::Artist, value: value@ },
            Metadata::Title(value) => MetadataView { key: MetadataKey::Title, value: value@ },
            Metadata::Date(value) => MetadataView { key: MetadataKey::Date, value: value@ },
            Metadata::Message(value) => MetadataView { key: MetadataKey::Message, value: value@ },
            Metadata::MessageRaw(value) => MetadataView { key: MetadataKey::MessageRaw, value: value@ },
            Metadata::Warnings(value) => MetadataView { key: MetadataKey::Warnings, value: value@ },
        }
    }
}

/// The tags held by a vector, in order.
pub open spec fn tags_of(tags: Seq<Metadata>) -> Seq<MetadataView> {
    Seq::new(tags.len(), |i: int| tags[i]@)
}

/// The tag name that a decoder uses for each key, and no other.
pub open spec fn key_of_name(name: Seq<char>) -> Option<MetadataKey> {
    if name == "type"@ {
        Some(MetadataKey::Type)
    } else if name == "type_long"@ {
        Some(MetadataKey::TypeLong)
    } else if name == "originaltype"@ {
        Some(MetadataKey::OriginalType)
    } else if name == "originaltype_long"@ {
        Some(MetadataKey::OriginalTypeLong)
    } else if name == "container"@ {
        Some(MetadataKey::Container)
    } else if name == "container_long"@ {
        Some(MetadataKey::ContainerLong)
    } else if name == "tracker"@ {
        Some(MetadataKey::Tracker)
    } else if name == "artist"@ {
        Some(MetadataKey::Artist)
    } else if name == "title"@ {
        Some(MetadataKey::Title)
    } else if name == "date"@ {
        Some(MetadataKey::Date)
    } else if name == "message"@ {
        Some(MetadataKey::Message)
    } else if name == "message_raw"@ {
        Some(MetadataKey::MessageRaw)
    } else if name == "warnings"@ {
        Some(MetadataKey::Warnings)
    } else {
        None
    }
}

/// A raw pair is fit to be read: its value is empty, or its name is known.
pub open spec fn readable_pair(pair: (String, String)) -> bool {
    pair.1@.len() == 0 || key_of_name(pair.0@).is_some()
}

/// The tags that the first `n` raw pairs give: pairs with an empty value are
/// left out, the others keep their order.
pub open spec fn parsed_tags(pairs: Seq<(String, String)>, n: nat) -> Seq<MetadataView>
    decreases n,
{
    if n == 0 || n > pairs.len() {
        Seq::empty()
    } else {
        let pair = pairs[n - 1];
        let before = parsed_tags(pairs, (n - 1) as nat);
        match key_of_name(pair.0@) {
            Some(key) if pair.1@.len() > 0 => before.push(MetadataView { key, value: pair.1@ }),
            _ => before,
        }
    }
}

impl MetadataKey {
    /// The key that a decoder calls `name`; `None` for a name outside the set.
    pub fn from_name(name: &str) -> (key: Option<MetadataKey>)
        ensures
            key == key_of_name(name@),
    {
        let name: String = name.to_owned();
        if name == String::from_str("type") {
            Some(MetadataKey::Type)
        } else if name == String::from_str("type_long") {
            Some(MetadataKey::TypeLong)
        } else if name == String::from_str("originaltype") {
            Some(MetadataKey::OriginalType)
        } else if name == String::from_str("originaltype_long") {
            Some(MetadataKey::OriginalTypeLong)
        } else if name == String::from_str("container") {
            Some(MetadataKey::Container)
        } else if name == String::from_str("container_long") {
            Some(MetadataKey::ContainerLong)
        } else if name == String::from_str("tracker") {
            Some(MetadataKey::Tracker)
        } else if name == String::from_str("artist") {
            Some(MetadataKey::Artist)
        } else if name == String::from_str("title") {
            Some(MetadataKey::Title)
        } else if name == String::from_str("date") {
            Some(MetadataKey::Date)
        } else if name == String::from_str("message") {
            Some(MetadataKey::Message)
        } else if name == String::from_str("message_raw") {
            Some(MetadataKey::MessageRaw)
        } else if name == String::from_str("warnings") {
            Some(MetadataKey::Warnings)
        } else {
            None
        }
    }
}

impl Metadata {
    /// The tag with the given key and text.
    pub fn new(key: MetadataKey, value: String) -> (tag: Metadata)
        ensures
            tag@ == (MetadataView { key, value: value@ }),
    {
        match key {
            MetadataKey::Type => Metadata::Type(value),
            MetadataKey::TypeLong => Metadata::TypeLong(value),
            MetadataKey::OriginalType => Metadata::OriginalType(value),
            MetadataKey::OriginalTypeLong => Metadata::OriginalTypeLong(value),
            MetadataKey::Container => Metadata::Container(value),
            MetadataKey::ContainerLong => Metadata::ContainerLong(value),
            MetadataKey::Tracker => Metadata::Tracker(value),
            MetadataKey::Artist => Metadata::Artist(value),
            MetadataKey::Title => Metadata::Title(value),
            MetadataKey::Date => Metadata::Date(value),
            MetadataKey::Message => Metadata::Message(value),
            MetadataKey::MessageRaw => Metadata::MessageRaw(value),
            MetadataKey::Warnings => Metadata::Warnings(value),
        }
    }

    /// Which tag this is.
    pub fn key(&self) -> (key: MetadataKey)
        ensures
            key == self@.key,
    {
        match self {
            Metadata::Type(_) => MetadataKey::Type,
            Metadata::TypeLong(_) => MetadataKey::TypeLong,
            Metadata::OriginalType(_) => MetadataKey::OriginalType,
            Metadata::OriginalTypeLong(_) => MetadataKey::OriginalTypeLong,
            Metadata::Container(_) => MetadataKey::Container,
            Metadata::ContainerLong(_) => MetadataKey::ContainerLong,
            Metadata::Tracker(_) => MetadataKey::Tracker,
            Metadata::Artist(_) => MetadataKey::Artist,
            Metadata::Title(_) => MetadataKey::Title,
            Metadata::Date(_) => MetadataKey::Date,
            Metadata::Message(_) => MetadataKey::Message,
            Metadata::MessageRaw(_) => MetadataKey::MessageRaw,
            Metadata::Warnings(_) => MetadataKey::Warnings,
        }
    }

    /// The text of the tag.
    pub fn value(&self) -> (value: &String)
        ensures
            value@ == self@.value,
    {
        match self {
            Metadata::Type(value) => value,
            Metadata::TypeLong(value) => value,
            Metadata::OriginalType(value) => value,
            Metadata::OriginalTypeLong(value) => value,
            Metadata::Container(value) => value,
            Metadata::ContainerLong(value) => value,
            Metadata::Tracker(value) => value,
            Metadata::Artist(value) => value,
            Metadata::Title(value) => value,
            Metadata::Date(value) => value,
            Metadata::Message(value) => value,
            Metadata::MessageRaw(value) => value,
            Metadata::Warnings(value) => value,
        }
    }

    /// An equal tag with text of its own.
    pub fn duplicate(&self) -> (copy: Metadata)
        ensures
            copy@ == self@,
    {
        Metadata::new(self.key(), self.value().clone())
    }
}

/// The first raw pair that is not fit to be read, by its index: it has a value
/// and a name outside the closed set. `None` where every pair is fit.
pub fn unreadable_pair(pairs: &Vec<(String, String)>) -> (found: Option<usize>)
    ensures
        match found {
            Some(k) => {
                &&& k < pairs.len()
                &&& !readable_pair(pairs[k as int])
                &&& forall|i: int| 0 <= i < k ==> readable_pair(#[trigger] pairs[i])
            },
            None => forall|i: int| 0 <= i < pairs.len() ==> readable_pair(#[trigger] pairs[i]),
        },
{
    let mut k: usize = 0;
    while k < pairs.len()
        invariant
            k <= pairs.len(),
            forall|i: int| 0 <= i < k ==> readable_pair(#[trigger] pairs[i]),
        decreases pairs.len() - k,
    {
        let pair = &pairs[k];
        if !pair.1.as_str().is_empty() && MetadataKey::from_name(pair.0.as_str()).is_none() {
            return Some(k);
        }
        k += 1;
    }
    None
}

/// Reads the tags out of the raw name and value pairs of a decoder, in the
/// decoder's order. A pair with an empty value gives no tag. A pair with a
/// value and a name outside the closed set breaks the agreement with the
/// decoder, and no caller may hand one in.
pub fn parse_metadata(pairs: &Vec<(String, String)>) -> (tags: Vec<Metadata>)
    requires
        forall|i: int| 0 <= i < pairs.len() ==> readable_pair(#[trigger] pairs[i]),
    ensures
        tags_of(tags@) == parsed_tags(pairs@, pairs.len() as nat),
{
    let mut tags: Vec<Metadata> = Vec::new();
    let mut i: usize = 0;
    while i < pairs.len()
        invariant
            i <= pairs.len(),
            forall|k: int| 0 <= k < pairs.len() ==> readable_pair(#[trigger] pairs[k]),
            tags_of(tags@) =~= parsed_tags(pairs@, i as nat),
        decreases pairs.len() - i,
    {
        let pair = &pairs[i];
        let ghost before = tags@;
        if !pair.1.as_str().is_empty() {
            match MetadataKey::from_name(pair.0.as_str()) {
                Some(key) => {
                    tags.push(Metadata::new(key, pair.1.clone()));
                    assert(tags_of(tags@) =~= tags_of(before).push(
                        MetadataView { key, value: pair.1@ },
                    ));
                },
                None => {
                    assert(readable_pair(pairs[i as int]));
                },
            }
        }
        i += 1;
    }
    tags
}

/// Copies a list of tags.
pub fn duplicate_tags(tags: &Vec<Metadata>) -> (copy: Vec<Metadata>)
    ensures
        tags_of(copy@) == tags_of(tags@),
{
    let mut copy: Vec<Metadata> = Vec::new();
    let mut i: usize = 0;
    while i < tags.len()
        invariant
            i <= tags.len(),
            copy.len() == i,
            forall|k: int| 0 <= k < i ==> copy[k]@ == tags[k]@,
        decreases tags.len() - i,
    {
        copy.push(tags[i].duplicate());
        i += 1;
    }
    assert(tags_of(copy@) =~= tags_of(tags@));
    copy
}

/// The names in a list that separates them by `;`. A list always holds one
/// name more than it holds separators, so the empty list holds the empty name.
pub open spec fn names_in(list: Seq<char>) -> Seq<Seq<char>>
    decreases list.len(),
{
    if list.len() == 0 {
        seq![Seq::empty()]
    } else {
        let before = names_in(list.drop_last());
        if list.last() == ';' {
            before.push(Seq::empty())
        } else {
            before.update(before.len() - 1, before.last().push(list.last()))
        }
    }
}

/// The names held by a vector of strings.
pub open spec fn names_of(names: Seq<String>) -> Seq<Seq<char>> {
    Seq::new(names.len(), |i: int| names[i]@)
}

/// Splits the list of tag names that a decoder reports, at each `;`.
pub fn split_names(list: &str) -> (names: Vec<String>)
    ensures
        names_of(names@) == names_in(list@),
{
    let n = list.unicode_len();
    let mut names: Vec<String> = Vec::new();
    let mut start: usize = 0;
    let mut i: usize = 0;
    assert(list@.take(0).len() == 0);
    assert(list@.subrange(0, 0) =~= Seq::<char>::empty());
    assert(names_of(names@).push(list@.subrange(0, 0)) =~= seq![Seq::<char>::empty()]);
    while i < n
        invariant
            n == list@.len(),
            start <= i <= n,
            names_in(list@.take(i as int)) =~= names_of(names@).push(
                list@.subrange(start as int, i as int),
            ),
        decreases n - i,
    {
        let c = list.get_char(i);
        let ghost before = names_of(names@);
        proof {
            let shorter = list@.take(i as int);
            let longer = list@.take(i + 1);
            assert(longer.drop_last() =~= shorter);
            assert(longer.last() == c);
            assert(names_in(shorter).len() == before.len() + 1);
            assert(names_in(shorter).last() == list@.subrange(start as int, i as int));
            assert(list@.subrange(start as int, i as int).push(c) =~= list@.subrange(
                start as int,
                i + 1,
            ));
        }
        if c == ';' {
            names.push(list.substring_char(start, i).to_owned());
            assert(names_of(names@) =~= before.push(list@.subrange(start as int, i as int)));
            start = i + 1;
            assert(list@.subrange(start as int, start as int) =~= Seq::<char>::empty());
            assert(names_in(list@.take(i + 1)) =~= names_of(names@).push(
                list@.subrange(start as int, start as int),
            ));
        } else {
            assert(names_in(list@.take(i + 1)) =~= before.push(
                list@.subrange(start as int, i + 1),
            ));
        }
        i += 1;
    }
    assert(list@.take(n as int) =~= list@);
    let ghost before = names_of(names@);
    names.push(list.substring_char(start, n).to_owned());
    assert(names_of(names@) =~= before.push(list@.subrange(start as int, n as int)));
    names
}

} // verus!
