//! Key-value documents: the tree that a document's text stands for, and the
//! lookups that the host's files need.

use vstd::prelude::*;
use vstd::string::StringExecFns;
use crate::search::{first_index, lemma_first_index_found, lemma_first_index_none};

verus! {

/// A value of a key-value document: a text, or a block of entries.
#[derive(Debug)]
pub enum VdfValue {
    Str(String),
    Obj(Vec<VdfEntry>),
}

/// One key of a block with every value that the block gives it, in the order
/// in which the document gives them.
#[derive(Debug)]
pub struct VdfEntry {
    pub key: String,
    pub values: Vec<VdfValue>,
}

/// A [`VdfValue`] as a mathematical value.
pub enum VdfNode {
    Str(Seq<char>),
    Obj(Seq<VdfField>),
}

/// A [`VdfEntry`] as a mathematical value.
pub struct VdfField {
    pub key: Seq<char>,
    pub values: Seq<VdfNode>,
}

impl View for VdfValue {
    type V = VdfNode;

    open spec fn view(&self) -> VdfNode
        decreases self,
    {
        match self {
            VdfValue::Str(text) => VdfNode::Str(text@),
            VdfValue::Obj(entries) => VdfNode::Obj(
                Seq::new(
                    entries.len() as nat,
                    |i: int|
                        if 0 <= i < entries.len() {
                            entries[i].view()
                        } else {
                            arbitrary()
                        },
                ),
            ),
        }
    }
}

impl View for VdfEntry {
    type V = VdfField;

    open spec fn view(&self) -> VdfField
        decreases self,
    {
        VdfField {
            key: self.key@,
            values: Seq::new(
                self.values.len() as nat,
                |i: int|
                    if 0 <= i < self.values.len() {
                        self.values[i].view()
                    } else {
                        arbitrary()
                    },
            ),
        }
    }
}

/// `keyvalues_parser::Value`, the parser's own tree. Nothing is known of a
/// value of it but what [`value_node`] names.
#[verifier::external_type_specification]
#[verifier::external_body]
pub struct ExValue<'a>(keyvalues_parser::Value<'a>);

/// The tree that the parser holds in `value`.
pub uninterp spec fn value_node(value: keyvalues_parser::Value<'static>) -> VdfNode;

/// Runs `keyvalues_parser::parse` on `text` and gives the value under the
/// document's root key, or the parser's error as it prints it.
///
/// Nothing is claimed of the result. The parser gives up where the thread
/// that runs it is short of stack, and its limits can be set for the whole
/// process, so one text may be read at one time and refused at another.
#[verifier::external_body]
fn parse_text(text: &str) -> Result<keyvalues_parser::Value<'static>, String> {
    match keyvalues_parser::parse(text) {
        Ok(document) => Ok(document.into_owned().value),
        Err(error) => Err(error.to_string()),
    }
}

/// Copies a `keyvalues_parser::Value` into a tree of this library's own: a
/// `Value::Str` becomes a text, a `Value::Obj` its entries in the order in
/// which the parser's map hands them out, which is the order of the keys,
/// each key with its values in the order of the document.
///
/// The contract says that the copy holds what the parser's tree holds.
#[verifier::external_body]
fn copy_tree(value: &keyvalues_parser::Value<'static>) -> (out: VdfValue)
    ensures
        out@ == value_node(*value),
{
    match value {
        keyvalues_parser::Value::Str(text) => VdfValue::Str(text.to_string()),
        keyvalues_parser::Value::Obj(block) => {
            let mut entries = Vec::new();
            for (key, values) in block.iter() {
                let values = values.iter().map(copy_tree).collect();
                entries.push(VdfEntry { key: key.to_string(), values });
            }
            VdfValue::Obj(entries)
        },
    }
}

/// What reading a document came to, as a mathematical value: the tree under
/// the root key, or the parser's words on why there is none.
pub open spec fn outcome_model(parsed: Result<VdfValue, String>) -> Result<VdfNode, Seq<char>> {
    match parsed {
        Ok(root) => Ok(root@),
        Err(why) => Err(why@),
    }
}

/// What reading a document came to, where it was read at all.
pub open spec fn reading_model(parsed: Option<Result<VdfValue, String>>) -> Option<
    Result<VdfNode, Seq<char>>,
> {
    match parsed {
        Some(outcome) => Some(outcome_model(outcome)),
        None => None,
    }
}

/// Reads a key-value document: the value under its root key, or the
/// parser's words on why the text is none.
///
/// Whether a text is read rests with the parser and with the stack that is
/// left to it, so nothing is promised here. What is made of a document once
/// it is read is stated by the functions that take the tree.
pub fn parse_vdf(text: &str) -> (out: Result<VdfValue, String>) {
    match parse_text(text) {
        Ok(value) => Ok(copy_tree(&value)),
        Err(why) => Err(why),
    }
}

impl DeepView for VdfValue {
    type V = VdfNode;

    open spec fn deep_view(&self) -> VdfNode {
        self@
    }
}

impl DeepView for VdfEntry {
    type V = VdfField;

    open spec fn deep_view(&self) -> VdfField {
        self@
    }
}

/// The entries of a block; a text has none.
pub open spec fn node_block(node: VdfNode) -> Option<Seq<VdfField>> {
    match node {
        VdfNode::Obj(fields) => Some(fields),
        VdfNode::Str(_) => None,
    }
}

/// The text of a text value; a block has none.
pub open spec fn node_text(node: VdfNode) -> Option<Seq<char>> {
    match node {
        VdfNode::Str(text) => Some(text),
        VdfNode::Obj(_) => None,
    }
}

/// Whether an entry has the key `key`, as a predicate.
pub open spec fn key_pred(key: Seq<char>) -> spec_fn(VdfField) -> bool {
    |field: VdfField| field.key == key
}

/// The values that a block gives the key `key`.
pub open spec fn field_values(fields: Seq<VdfField>, key: Seq<char>) -> Option<Seq<VdfNode>> {
    match first_index(fields, key_pred(key)) {
        Some(i) => Some(fields[i].values),
        None => None,
    }
}

/// The first of some values.
pub open spec fn first_node(values: Seq<VdfNode>) -> Option<VdfNode> {
    if values.len() > 0 {
        Some(values[0])
    } else {
        None
    }
}

/// The first value of `values`, where it is a block.
pub open spec fn first_block(values: Seq<VdfNode>) -> Option<Seq<VdfField>> {
    match first_node(values) {
        Some(node) => node_block(node),
        None => None,
    }
}

/// The first value of `values`, where it is a text.
pub open spec fn first_text(values: Seq<VdfNode>) -> Option<Seq<char>> {
    match first_node(values) {
        Some(node) => node_text(node),
        None => None,
    }
}

/// The block that is the first value of the key `key`.
pub open spec fn child_block(fields: Seq<VdfField>, key: Seq<char>) -> Option<Seq<VdfField>> {
    match field_values(fields, key) {
        Some(values) => first_block(values),
        None => None,
    }
}

/// The text that is the first value of the key `key`.
pub open spec fn child_text(fields: Seq<VdfField>, key: Seq<char>) -> Option<Seq<char>> {
    match field_values(fields, key) {
        Some(values) => first_text(values),
        None => None,
    }
}

/// The block that is the first value of the first entry.
pub open spec fn leading_block(fields: Seq<VdfField>) -> Option<Seq<VdfField>> {
    if fields.len() > 0 {
        first_block(fields[0].values)
    } else {
        None
    }
}

/// The view of a block is the sequence of the views of its entries, and the
/// view of an entry holds the views of its values.
pub proof fn lemma_views(value: &VdfValue)
    ensures
        value matches VdfValue::Obj(entries) ==> value@ == VdfNode::Obj(entries.deep_view()),
        value matches VdfValue::Str(text) ==> value@ == VdfNode::Str(text@),
{
    match value {
        VdfValue::Obj(entries) => {
            assert(value@->Obj_0 =~= entries.deep_view());
        },
        VdfValue::Str(_) => {},
    }
}

/// The view of an entry holds the views of its values.
pub proof fn lemma_entry_view(entry: &VdfEntry)
    ensures
        entry@ == (VdfField { key: entry.key@, values: entry.values.deep_view() }),
{
    assert(entry@.values =~= entry.values.deep_view());
}

impl VdfValue {
    /// The entries of this value, where it is a block.
    pub fn get_obj(&self) -> (out: Option<&Vec<VdfEntry>>)
        ensures
            out.deep_view() == node_block(self@),
    {
        proof {
            lemma_views(self);
        }
        match self {
            VdfValue::Obj(entries) => Some(entries),
            VdfValue::Str(_) => None,
        }
    }

    /// The text of this value, where it is a text.
    pub fn get_str(&self) -> (out: Option<&String>)
        ensures
            out.deep_view() == node_text(self@),
    {
        proof {
            lemma_views(self);
        }
        match self {
            VdfValue::Str(text) => Some(text),
            VdfValue::Obj(_) => None,
        }
    }
}

/// The values that `entries` give the key `key`.
pub fn get_values<'a>(entries: &'a Vec<VdfEntry>, key: &str) -> (out: Option<&'a Vec<VdfValue>>)
    ensures
        out.deep_view() == field_values(entries.deep_view(), key@),
{
    let ghost fields = entries.deep_view();
    let ghost pred = key_pred(key@);
    let wanted = String::from_str(key);
    let mut i: usize = 0;
    while i < entries.len()
        invariant
            i <= entries.len(),
            fields == entries.deep_view(),
            pred == key_pred(key@),
            wanted@ == key@,
            forall|j: int| 0 <= j < i ==> !pred(#[trigger] fields[j]),
        decreases entries.len() - i,
    {
        proof {
            lemma_entry_view(&entries[i as int]);
        }
        if entries[i].key == wanted {
            proof {
                lemma_first_index_found(fields, pred, i as int);
            }
            return Some(&entries[i].values);
        }
        i += 1;
    }
    proof {
        lemma_first_index_none(fields, pred);
    }
    None
}

/// The first of `values`, where it is a block.
pub fn get_first_block<'a>(values: &'a Vec<VdfValue>) -> (out: Option<&'a Vec<VdfEntry>>)
    ensures
        out.deep_view() == first_block(values.deep_view()),
{
    if values.len() > 0 {
        values[0].get_obj()
    } else {
        None
    }
}

/// The first of `values`, where it is a text.
pub fn get_first_text<'a>(values: &'a Vec<VdfValue>) -> (out: Option<&'a String>)
    ensures
        out.deep_view() == first_text(values.deep_view()),
{
    if values.len() > 0 {
        values[0].get_str()
    } else {
        None
    }
}

/// The block that is the first value of the key `key`.
pub fn get_child_block<'a>(entries: &'a Vec<VdfEntry>, key: &str) -> (out: Option<
    &'a Vec<VdfEntry>,
>)
    ensures
        out.deep_view() == child_block(entries.deep_view(), key@),
{
    match get_values(entries, key) {
        Some(values) => get_first_block(values),
        None => None,
    }
}

/// The text that is the first value of the key `key`.
pub fn get_child_text<'a>(entries: &'a Vec<VdfEntry>, key: &str) -> (out: Option<&'a String>)
    ensures
        out.deep_view() == child_text(entries.deep_view(), key@),
{
    match get_values(entries, key) {
        Some(values) => get_first_text(values),
        None => None,
    }
}

/// The block that is the first value of the first entry.
pub fn get_leading_block<'a>(entries: &'a Vec<VdfEntry>) -> (out: Option<&'a Vec<VdfEntry>>)
    ensures
        out.deep_view() == leading_block(entries.deep_view()),
{
    if entries.len() > 0 {
        proof {
            lemma_entry_view(&entries[0]);
        }
        get_first_block(&entries[0].values)
    } else {
        None
    }
}

} // verus!
