//! A key-value (VDF) document tree, filled from the text parser of the
//! `keyvalues_parser` crate.

use vstd::prelude::*;

verus! {

/// The mathematical form of a key-value document node.
pub enum KvTree {
    Str(Seq<char>),
    Obj(Seq<(Seq<char>, Seq<KvTree>)>),
}

/// One key of a mapping node with every value written under it.
pub struct KvEntry {
    pub key: String,
    pub values: Vec<KvNode>,
}

/// A key-value document node: a scalar string or an ordered mapping.
pub enum KvNode {
    Str(String),
    Obj(Vec<KvEntry>),
}

impl KvNode {
    pub open spec fn view(&self) -> KvTree
        decreases self,
    {
        match self {
            KvNode::Str(s) => KvTree::Str(s@),
            KvNode::Obj(entries) => KvTree::Obj(
                Seq::new(
                    entries.len() as nat,
                    |i: int|
                        if 0 <= i < entries.len() {
                            (
                                entries[i].key@,
                                Seq::new(
                                    entries[i].values.len() as nat,
                                    |j: int|
                                        if 0 <= j < entries[i].values.len() {
                                            entries[i].values[j].view()
                                        } else {
                                            KvTree::Str(Seq::empty())
                                        },
                                ),
                            )
                        } else {
                            (Seq::empty(), Seq::empty())
                        },
                ),
            ),
        }
    }
}

/// The first values written under `key` in a mapping's entries.
pub open spec fn lookup(entries: Seq<(Seq<char>, Seq<KvTree>)>, key: Seq<char>) -> Option<
    Seq<KvTree>,
>
    decreases entries.len(),
{
    if entries.len() == 0 {
        None
    } else if entries[0].0 == key {
        Some(entries[0].1)
    } else {
        lookup(entries.drop_first(), key)
    }
}

proof fn lemma_lookup_at(entries: Seq<(Seq<char>, Seq<KvTree>)>, key: Seq<char>, i: int)
    requires
        0 <= i <= entries.len(),
        forall|k: int| 0 <= k < i ==> entries[k].0 != key,
    ensures
        lookup(entries, key) == (if i < entries.len() && entries[i].0 == key {
            Some(entries[i].1)
        } else {
            lookup(entries.subrange(i, entries.len() as int), key)
        }),
    decreases i,
{
    if i == 0 {
        assert(entries.subrange(0, entries.len() as int) =~= entries);
    } else {
        let rest = entries.drop_first();
        assert forall|k: int| 0 <= k < i - 1 implies rest[k].0 != key by {
            assert(rest[k] == entries[k + 1]);
        }
        lemma_lookup_at(rest, key, i - 1);
        assert(rest.subrange(i - 1, rest.len() as int) =~= entries.subrange(
            i,
            entries.len() as int,
        ));
    }
}

/// What the text parser of `keyvalues_parser` makes of a text: the value of its
/// top-level pair, or `None` where the text is refused.
pub uninterp spec fn kv_parse(text: Seq<char>) -> Option<KvTree>;

/// The tree that a value of `keyvalues_parser` holds.
pub uninterp spec fn kv_tree_of(v: keyvalues_parser::Value<'static>) -> KvTree;

#[verifier::external_type_specification]
#[verifier::external_body]
pub struct ExValue<'a>(keyvalues_parser::Value<'a>);

#[verifier::external_type_specification]
#[verifier::external_body]
pub struct ExKvError(keyvalues_parser::error::Error);

/// One level of a parsed value, its children still in the parser's form.
enum ValueParts {
    Str(String),
    Obj(Vec<(String, Vec<keyvalues_parser::Value<'static>>)>),
}

/// Relies on `keyvalues_parser::parse`: the value of the text's top-level pair,
/// or the parser's error.
#[verifier::external_body]
fn parse_value(text: &str) -> (r: Result<keyvalues_parser::Value<'static>, keyvalues_parser::error::Error>)
    ensures
        match r {
            Ok(v) => kv_parse(text@) == Some(kv_tree_of(v)),
            Err(_) => kv_parse(text@) is None,
        },
{
    keyvalues_parser::parse(text).map(|pair| pair.value.into_owned())
}

/// Relies on the two variants of `keyvalues_parser::Value`: a string, or an
/// object that maps each key, in the object's order, to its list of values.
#[verifier::external_body]
fn value_parts(v: keyvalues_parser::Value<'static>) -> (r: ValueParts)
    ensures
        match kv_tree_of(v) {
            KvTree::Str(s) => r matches ValueParts::Str(t) && t@ == s,
            KvTree::Obj(es) => r matches ValueParts::Obj(parts) && parts.len() == es.len() && forall|
                i: int,
            |
                0 <= i < es.len() ==> {
                    &&& (#[trigger] parts[i]).0@ == es[i].0
                    &&& parts[i].1.len() == es[i].1.len()
                    &&& forall|j: int|
                        0 <= j < es[i].1.len() ==> kv_tree_of(#[trigger] parts[i].1[j])
                            == es[i].1[j]
                },
        },
{
    match v {
        keyvalues_parser::Value::Str(s) => ValueParts::Str(s.into_owned()),
        keyvalues_parser::Value::Obj(o) => ValueParts::Obj(
            o.into_inner().into_iter().map(|(k, vs)| (k.into_owned(), vs)).collect(),
        ),
    }
}

impl KvNode {
    /// Builds the library's tree from a value of the parser.
    fn from_value(v: keyvalues_parser::Value<'static>) -> (r: KvNode)
        ensures
            r@ == kv_tree_of(v),
        decreases kv_tree_of(v),
    {
        match value_parts(v) {
            ValueParts::Str(s) => KvNode::Str(s),
            ValueParts::Obj(parts) => {
                let ghost es = kv_tree_of(v)->Obj_0;
                let mut parts = parts;
                let mut entries: Vec<KvEntry> = Vec::new();
                while parts.len() > 0
                    invariant
                        kv_tree_of(v) == KvTree::Obj(es),
                        entries.len() + parts.len() == es.len(),
                        forall|i: int|
                            0 <= i < entries.len() ==> {
                                &&& (#[trigger] entries[i]).key@ == es[i].0
                                &&& entries[i].values.len() == es[i].1.len()
                                &&& forall|j: int|
                                    0 <= j < es[i].1.len() ==> (#[trigger] entries[i].values[j])@
                                        == es[i].1[j]
                            },
                        forall|i: int|
                            0 <= i < parts.len() ==> {
                                &&& (#[trigger] parts[i]).0@ == es[entries.len() + i].0
                                &&& parts[i].1.len() == es[entries.len() + i].1.len()
                                &&& forall|j: int|
                                    0 <= j < parts[i].1.len() ==> kv_tree_of(
                                        #[trigger] parts[i].1[j],
                                    ) == es[entries.len() + i].1[j]
                            },
                    decreases parts.len(),
                {
                    let ghost i = entries.len() as int;
                    let ghost old_parts = parts@;
                    let (key, vals) = parts.remove(0);
                    assert(forall|k: int| 0 <= k < parts.len() ==> parts[k] == old_parts[k + 1]);
                    let mut vals = vals;
                    let mut nodes: Vec<KvNode> = Vec::new();
                    while vals.len() > 0
                        invariant
                            kv_tree_of(v) == KvTree::Obj(es),
                            0 <= i < es.len(),
                            nodes.len() + vals.len() == es[i].1.len(),
                            forall|j: int|
                                0 <= j < nodes.len() ==> (#[trigger] nodes[j])@ == es[i].1[j],
                            forall|j: int|
                                0 <= j < vals.len() ==> kv_tree_of(#[trigger] vals[j])
                                    == es[i].1[nodes.len() + j],
                        decreases vals.len(),
                    {
                        let ghost old_vals = vals@;
                        let c = vals.remove(0);
                        assert(forall|k: int| 0 <= k < vals.len() ==> vals[k] == old_vals[k + 1]);
                        proof {
                            let j = nodes.len() as int;
                            assert(kv_tree_of(c) == es[i].1[j]);
                            assert(decreases_to!(es[i].1 => es[i].1[j]));
                            assert(decreases_to!(es => es[i]));
                            assert(decreases_to!(es[i] => es[i].1));
                            assert(decreases_to!(kv_tree_of(v) => kv_tree_of(v)->Obj_0));
                        }
                        let n = KvNode::from_value(c);
                        nodes.push(n);
                    }
                    entries.push(KvEntry { key, values: nodes });
                }
                let r = KvNode::Obj(entries);
                assert forall|i: int| 0 <= i < es.len() implies r@->Obj_0[i] == es[i] by {
                    assert(r@->Obj_0[i].1 =~= es[i].1);
                }
                assert(r@->Obj_0 =~= es);
                r
            },
        }
    }

    /// The entries of a mapping node, `None` for a scalar.
    pub fn get_mapping(&self) -> (r: Option<&Vec<KvEntry>>)
        ensures
            match self {
                KvNode::Obj(es) => r == Some(es),
                KvNode::Str(_) => r is None,
            },
    {
        match self {
            KvNode::Obj(es) => Some(es),
            KvNode::Str(_) => None,
        }
    }

    /// The string of a scalar node, `None` for a mapping.
    pub fn get_scalar(&self) -> (r: Option<&String>)
        ensures
            match self {
                KvNode::Str(s) => r == Some(s),
                KvNode::Obj(_) => r is None,
            },
    {
        match self {
            KvNode::Str(s) => Some(s),
            KvNode::Obj(_) => None,
        }
    }
}

/// The view of a mapping's entries.
pub open spec fn entries_view(entries: Vec<KvEntry>) -> Seq<(Seq<char>, Seq<KvTree>)> {
    KvNode::Obj(entries)@->Obj_0
}

/// The views of a list of nodes.
pub open spec fn nodes_view(nodes: Seq<KvNode>) -> Seq<KvTree> {
    nodes.map_values(|n: KvNode| n@)
}

pub proof fn lemma_entries_view(entries: Vec<KvEntry>)
    ensures
        entries_view(entries).len() == entries.len(),
        forall|i: int|
            0 <= i < entries.len() ==> (#[trigger] entries_view(entries)[i]) == (
                entries[i].key@,
                nodes_view(entries[i].values@),
            ),
{
    assert forall|i: int| 0 <= i < entries.len() implies (#[trigger] entries_view(entries)[i]) == (
        entries[i].key@,
        nodes_view(entries[i].values@),
    ) by {
        assert(entries_view(entries)[i].1 =~= nodes_view(entries[i].values@));
    }
}

/// The values written under the first entry whose key is `key`.
pub fn lookup_values<'a>(entries: &'a Vec<KvEntry>, key: &String) -> (r: Option<&'a Vec<KvNode>>)
    ensures
        match lookup(entries_view(*entries), key@) {
            Some(vs) => r matches Some(found) && nodes_view(found@) == vs,
            None => r is None,
        },
{
    let ghost es = entries_view(*entries);
    proof {
        lemma_entries_view(*entries);
    }
    let mut i: usize = 0;
    while i < entries.len()
        invariant
            es == entries_view(*entries),
            es.len() == entries.len(),
            i <= entries.len(),
            forall|k: int| 0 <= k < i ==> es[k].0 != key@,
        decreases entries.len() - i,
    {
        if entries[i].key == *key {
            proof {
                lemma_entries_view(*entries);
                lemma_lookup_at(es, key@, i as int);
            }
            return Some(&entries[i].values);
        }
        proof {
            lemma_entries_view(*entries);
        }
        i = i + 1;
    }
    proof {
        lemma_lookup_at(es, key@, i as int);
    }
    None
}

/// Parses a key-value text into a document tree.
pub fn parse_document(text: &str) -> (r: Result<KvNode, keyvalues_parser::error::Error>)
    ensures
        match r {
            Ok(n) => kv_parse(text@) == Some(n@),
            Err(_) => kv_parse(text@) is None,
        },
{
    match parse_value(text) {
        Ok(v) => Ok(KvNode::from_value(v)),
        Err(e) => Err(e),
    }
}

} // verus!
