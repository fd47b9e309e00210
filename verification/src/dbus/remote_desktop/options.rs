//! Options of D-Bus calls: values by their names.

use vstd::prelude::*;
use vstd::string::*;

use crate::utils::lists::views;

verus! {

/// An item of an array that arrived over D-Bus.
#[derive(Debug)]
pub enum Item {
    Str(String),
    /// Anything that is no text.
    Other,
}

/// What an `Item` says.
pub enum ItemView {
    Str(Seq<char>),
    Other,
}

impl View for Item {
    type V = ItemView;

    open spec fn view(&self) -> ItemView {
        match *self {
            Item::Str(text) => ItemView::Str(text@),
            Item::Other => ItemView::Other,
        }
    }
}

/// A value that arrives or leaves over D-Bus.
#[derive(Debug)]
pub enum Value {
    Bool(bool),
    U32(u32),
    U64(u64),
    Str(String),
    Array(Vec<Item>),
    /// Anything that no option of this API is.
    Other,
}

/// What a `Value` says.
pub enum ValueView {
    Bool(bool),
    U32(u32),
    U64(u64),
    Str(Seq<char>),
    Array(Seq<ItemView>),
    Other,
}

impl View for Value {
    type V = ValueView;

    open spec fn view(&self) -> ValueView {
        match *self {
            Value::Bool(value) => ValueView::Bool(value),
            Value::U32(value) => ValueView::U32(value),
            Value::U64(value) => ValueView::U64(value),
            Value::Str(value) => ValueView::Str(value@),
            Value::Array(items) => ValueView::Array(views(items@)),
            Value::Other => ValueView::Other,
        }
    }
}

/// An option.
#[derive(Debug)]
pub struct Entry {
    pub key: String,
    pub value: Value,
}

/// Options of a call, or attributes of an object.
///
/// Where a name was put in twice, the value that came last counts.
#[derive(Debug)]
pub struct Options {
    pub entries: Vec<Entry>,
}

/// The options that a list of entries makes.
pub open spec fn options_of(entries: Seq<Entry>) -> Map<Seq<char>, ValueView>
    decreases entries.len(),
{
    if entries.len() == 0 {
        Map::empty()
    } else {
        options_of(entries.drop_last()).insert(entries.last().key@, entries.last().value@)
    }
}

impl View for Options {
    type V = Map<Seq<char>, ValueView>;

    open spec fn view(&self) -> Map<Seq<char>, ValueView> {
        options_of(self.entries@)
    }
}

/// The option of the given name, where it is a boolean.
pub open spec fn bool_of(options: Map<Seq<char>, ValueView>, key: Seq<char>) -> Option<bool> {
    if options.contains_key(key) {
        match options[key] {
            ValueView::Bool(value) => Some(value),
            _ => None,
        }
    } else {
        None
    }
}

/// The option of the given name, where it is a number.
pub open spec fn u32_of(options: Map<Seq<char>, ValueView>, key: Seq<char>) -> Option<u32> {
    if options.contains_key(key) {
        match options[key] {
            ValueView::U32(value) => Some(value),
            _ => None,
        }
    } else {
        None
    }
}

/// The option of the given name, where it is a text.
pub open spec fn string_of(options: Map<Seq<char>, ValueView>, key: Seq<char>) -> Option<Seq<char>> {
    if options.contains_key(key) {
        match options[key] {
            ValueView::Str(value) => Some(value),
            _ => None,
        }
    } else {
        None
    }
}

/// The texts of an array that holds nothing else.
pub open spec fn texts_of(items: Seq<ItemView>) -> Option<Seq<Seq<char>>>
    decreases items.len(),
{
    if items.len() == 0 {
        Some(Seq::empty())
    } else {
        match (texts_of(items.drop_last()), items.last()) {
            (Some(texts), ItemView::Str(text)) => Some(texts.push(text)),
            _ => None,
        }
    }
}

/// The option of the given name, where it is an array of texts.
pub open spec fn string_vec_of(options: Map<Seq<char>, ValueView>, key: Seq<char>) -> Option<
    Seq<Seq<char>>,
> {
    if options.contains_key(key) {
        match options[key] {
            ValueView::Array(items) => texts_of(items),
            _ => None,
        }
    } else {
        None
    }
}

/// The array that holds the given texts.
pub open spec fn array_of(texts: Seq<Seq<char>>) -> ValueView {
    ValueView::Array(texts.map_values(|text: Seq<char>| ItemView::Str(text)))
}

/// Reading an array of texts gives the texts that it was made of.
pub proof fn arrays_hold_their_texts(texts: Seq<Seq<char>>)
    ensures
        array_of(texts) matches ValueView::Array(items) && texts_of(items) == Some(texts),
    decreases texts.len(),
{
    let items = texts.map_values(|text: Seq<char>| ItemView::Str(text));
    if texts.len() > 0 {
        arrays_hold_their_texts(texts.drop_last());
        assert(items.drop_last() =~= texts.drop_last().map_values(
            |text: Seq<char>| ItemView::Str(text),
        ));
        assert(texts.drop_last().push(texts.last()) =~= texts);
    } else {
        assert(texts =~= Seq::empty());
    }
}

/// One text among those that an array does not hold leaves nothing to read.
proof fn lemma_texts_prefix(items: Seq<ItemView>, count: int)
    requires
        0 <= count <= items.len(),
        texts_of(items.take(count)) is None,
    ensures
        texts_of(items) is None,
    decreases items.len() - count,
{
    if count < items.len() {
        assert(items.take(count + 1).drop_last() =~= items.take(count));
        lemma_texts_prefix(items, count + 1);
    } else {
        assert(items.take(count) =~= items);
    }
}

impl Options {
    /// No options.
    pub fn new() -> (options: Self)
        ensures
            options@ == Map::<Seq<char>, ValueView>::empty(),
    {
        Options { entries: Vec::new() }
    }

    /// Puts an option in.
    pub fn insert(&mut self, key: &str, value: Value)
        ensures
            final(self)@ == old(self)@.insert(key@, value@),
    {
        let ghost before = self.entries@;
        self.entries.push(Entry { key: key.to_owned(), value });
        assert(self.entries@.drop_last() =~= before);
    }

    /// The option of the given name.
    pub fn get(&self, key: &str) -> (value: Option<&Value>)
        ensures
            match value {
                Some(value) => self@.contains_key(key@) && self@[key@] == value@,
                None => !self@.contains_key(key@),
            },
    {
        let wanted = key.to_owned();
        let mut i: usize = self.entries.len();
        assert(self.entries@.take(i as int) =~= self.entries@);
        while i > 0
            invariant
                i <= self.entries.len(),
                wanted@ == key@,
                self@.contains_key(key@) == options_of(self.entries@.take(i as int)).contains_key(
                    key@,
                ),
                self@.contains_key(key@) ==> self@[key@] == options_of(
                    self.entries@.take(i as int),
                )[key@],
            decreases i,
        {
            i = i - 1;
            assert(self.entries@.take(i + 1).drop_last() =~= self.entries@.take(i as int));
            if self.entries[i].key == wanted {
                return Some(&self.entries[i].value);
            }
        }
        assert(self.entries@.take(0) =~= Seq::<Entry>::empty());
        None
    }
}

/// Reads a boolean.
pub fn get_bool(options: &Options, key: &str) -> (value: Option<bool>)
    ensures
        value == bool_of(options@, key@),
{
    match options.get(key) {
        Some(Value::Bool(value)) => Some(*value),
        _ => None,
    }
}

/// Reads a number.
pub fn get_u32(options: &Options, key: &str) -> (value: Option<u32>)
    ensures
        value == u32_of(options@, key@),
{
    match options.get(key) {
        Some(Value::U32(value)) => Some(*value),
        _ => None,
    }
}

/// Reads a text.
pub fn get_string(options: &Options, key: &str) -> (value: Option<String>)
    ensures
        match value {
            Some(value) => string_of(options@, key@) == Some(value@),
            None => string_of(options@, key@) is None,
        },
{
    match options.get(key) {
        Some(Value::Str(value)) => Some(value.clone()),
        _ => None,
    }
}

/// Reads an array of texts.
pub fn get_string_vec(options: &Options, key: &str) -> (value: Option<Vec<String>>)
    ensures
        match value {
            Some(value) => string_vec_of(options@, key@) == Some(views(value@)),
            None => string_vec_of(options@, key@) is None,
        },
{
    broadcast use crate::utils::lists::group_views;

    match options.get(key) {
        Some(Value::Array(items)) => {
            let mut texts: Vec<String> = Vec::new();
            let ghost all = views(items@);
            for i in 0..items.len()
                invariant
                    all == views(items@),
                    options@.contains_key(key@),
                    options@[key@] == ValueView::Array(all),
                    texts_of(all.take(i as int)) == Some(views(texts@)),
            {
                proof {
                    crate::utils::lists::lemma_take_push(all, i as int);
                    assert(all.take(i + 1).drop_last() =~= all.take(i as int));
                    assert(all[i as int] == items@[i as int]@);
                }
                match &items[i] {
                    Item::Str(text) => {
                        texts.push(text.clone());
                    },
                    Item::Other => {
                        proof {
                            lemma_texts_prefix(all, i + 1);
                        }
                        return None;
                    },
                }
            }
            assert(all.take(items.len() as int) =~= all);
            Some(texts)
        },
        _ => None,
    }
}

/// An array of texts.
pub fn string_array(texts: Vec<String>) -> (value: Value)
    ensures
        value@ == array_of(views(texts@)),
{
    let mut items: Vec<Item> = Vec::new();
    for i in 0..texts.len()
        invariant
            items.len() == i,
            forall|j: int| 0 <= j < i ==> #[trigger] items@[j]@ == ItemView::Str(texts@[j]@),
    {
        items.push(Item::Str(texts[i].clone()));
    }
    assert(views(items@) =~= views(texts@).map_values(|text: Seq<char>| ItemView::Str(text)));
    Value::Array(items)
}

} // verus!
