//! The generic XML element tree that conversion works on, together with
//! pure read-only accessors: first-child-by-name, attribute-by-name,
//! all-children-by-name in document order, and trimmed text content.
//!
//! The tree is already parsed: nodes carry a tag name, an ordered list of
//! attributes, and ordered children (nested elements or text runs). No
//! parsing or validation logic lives here.

use vstd::prelude::*;
use vstd::string::*;

verus! {

broadcast use vstd::std_specs::vec::group_vec_axioms;

/// One child of an element: either a nested element or a run of text.
#[derive(Debug, PartialEq)]
pub enum XmlNode {
    Element(XmlElement),
    Text(String),
}

/// A named element with ordered attributes and ordered children.
#[derive(Debug, PartialEq)]
pub struct XmlElement {
    pub name: String,
    pub attributes: Vec<(String, String)>,
    pub children: Vec<XmlNode>,
}

/// Whitespace as XML defines it: space, tab, carriage return, line feed.
pub open spec fn is_xml_space(c: char) -> bool {
    c == ' ' || c == '\t' || c == '\r' || c == '\n'
}

/// Drop leading whitespace.
pub open spec fn trim_front(s: Seq<char>) -> Seq<char>
    decreases s.len(),
{
    if s.len() > 0 && is_xml_space(s[0]) {
        trim_front(s.drop_first())
    } else {
        s
    }
}

/// Drop trailing whitespace.
pub open spec fn trim_back(s: Seq<char>) -> Seq<char>
    decreases s.len(),
{
    if s.len() > 0 && is_xml_space(s.last()) {
        trim_back(s.drop_last())
    } else {
        s
    }
}

/// Drop leading and trailing whitespace.
pub open spec fn trimmed(s: Seq<char>) -> Seq<char> {
    trim_back(trim_front(s))
}

/// The text carried by one child node: a text run's characters, or
/// nothing for a nested element.
pub open spec fn node_text(n: XmlNode) -> Seq<char> {
    match n {
        XmlNode::Text(t) => t@,
        XmlNode::Element(_) => Seq::empty(),
    }
}

/// The concatenation of all text runs among the given children, in
/// document order.
pub open spec fn all_text(s: Seq<XmlNode>) -> Seq<char>
    decreases s.len(),
{
    if s.len() == 0 {
        Seq::empty()
    } else {
        all_text(s.drop_last()) + node_text(s.last())
    }
}

/// The trimmed text content of an element: all of its text runs joined
/// in order, with surrounding whitespace removed. Empty if none present.
pub open spec fn elem_text(e: XmlElement) -> Seq<char> {
    trimmed(all_text(e.children@))
}

/// Whether a child node is an element with the given name.
pub open spec fn is_named_elem(n: XmlNode, name: Seq<char>) -> bool {
    match n {
        XmlNode::Element(c) => c.name@ == name,
        XmlNode::Text(_) => false,
    }
}

/// The first element with the given name among the children, if any.
pub open spec fn first_named(s: Seq<XmlNode>, name: Seq<char>) -> Option<XmlElement>
    decreases s.len(),
{
    if s.len() == 0 {
        None
    } else {
        match s[0] {
            XmlNode::Element(c) => if c.name@ == name {
                Some(c)
            } else {
                first_named(s.drop_first(), name)
            },
            XmlNode::Text(_) => first_named(s.drop_first(), name),
        }
    }
}

/// The first child element of `e` with the given name, if any.
pub open spec fn child_named(e: XmlElement, name: Seq<char>) -> Option<XmlElement> {
    first_named(e.children@, name)
}

/// The trimmed text of the first child element with the given name;
/// `None` when no such child exists.
pub open spec fn child_text(e: XmlElement, name: Seq<char>) -> Option<Seq<char>> {
    match child_named(e, name) {
        Some(c) => Some(elem_text(c)),
        None => None,
    }
}

/// Every element with the given name among the children, in document
/// order.
pub open spec fn named_elems(s: Seq<XmlNode>, name: Seq<char>) -> Seq<XmlElement>
    decreases s.len(),
{
    if s.len() == 0 {
        Seq::empty()
    } else {
        named_elems(s.drop_last(), name) + (match s.last() {
            XmlNode::Element(c) => if c.name@ == name {
                seq![c]
            } else {
                Seq::empty()
            },
            XmlNode::Text(_) => Seq::empty(),
        })
    }
}

/// Every child element of `e` with the given name, in document order.
pub open spec fn children_named(e: XmlElement, name: Seq<char>) -> Seq<XmlElement> {
    named_elems(e.children@, name)
}

/// The trimmed texts of every child element with the given name, in
/// document order.
pub open spec fn child_texts(e: XmlElement, name: Seq<char>) -> Seq<Seq<char>> {
    children_named(e, name).map_values(|c: XmlElement| elem_text(c))
}

/// The value of the first attribute with the given name, if any.
pub open spec fn attr_in(s: Seq<(String, String)>, name: Seq<char>) -> Option<Seq<char>>
    decreases s.len(),
{
    if s.len() == 0 {
        None
    } else if s[0].0@ == name {
        Some(s[0].1@)
    } else {
        attr_in(s.drop_first(), name)
    }
}

/// The value of the attribute of `e` with the given name, if any.
pub open spec fn attr_text(e: XmlElement, name: Seq<char>) -> Option<Seq<char>> {
    attr_in(e.attributes@, name)
}

/// Character-for-character equality of two string slices.
pub fn str_eq(a: &str, b: &str) -> (r: bool)
    ensures
        r == (a@ == b@),
{
    let sa = String::from_str(a);
    let sb = String::from_str(b);
    sa == sb
}

/// Whitespace test on one character.
pub fn is_space_char(c: char) -> (r: bool)
    ensures
        r == is_xml_space(c),
{
    c == ' ' || c == '\t' || c == '\r' || c == '\n'
}

proof fn lemma_trim_front_skip(s: Seq<char>, i: int)
    requires
        0 <= i <= s.len(),
        forall|j: int| 0 <= j < i ==> is_xml_space(s[j]),
    ensures
        trim_front(s) == trim_front(s.skip(i)),
    decreases i,
{
    if i > 0 {
        assert(is_xml_space(s[0]));
        assert(s.drop_first() =~= s.skip(1));
        assert(forall|j: int| 0 <= j < i - 1 ==> is_xml_space(#[trigger] s.skip(1)[j]));
        lemma_trim_front_skip(s.skip(1), i - 1);
        assert(s.skip(1).skip(i - 1) =~= s.skip(i));
    } else {
        assert(s.skip(0) =~= s);
    }
}

proof fn lemma_trim_back_take(s: Seq<char>, i: int)
    requires
        0 <= i <= s.len(),
        forall|j: int| i <= j < s.len() ==> is_xml_space(s[j]),
    ensures
        trim_back(s) == trim_back(s.take(i)),
    decreases s.len() - i,
{
    if i < s.len() {
        assert(is_xml_space(s.last()));
        assert(s.drop_last() =~= s.take(s.len() - 1));
        lemma_trim_back_take(s.take(s.len() - 1), i);
        assert(s.take(s.len() - 1).take(i) =~= s.take(i));
    } else {
        assert(s.take(i) =~= s);
    }
}

/// Remove leading and trailing whitespace from a string slice.
pub fn trim_str(s: &str) -> (r: String)
    ensures
        r@ == trimmed(s@),
{
    let n = s.unicode_len();
    let mut start: usize = 0;
    while start < n && is_space_char(s.get_char(start))
        invariant
            0 <= start <= n,
            n == s@.len(),
            forall|j: int| 0 <= j < start ==> is_xml_space(s@[j]),
        decreases n - start,
    {
        start = start + 1;
    }
    let mut end: usize = n;
    while end > start && is_space_char(s.get_char(end - 1))
        invariant
            start <= end <= n,
            n == s@.len(),
            forall|j: int| end <= j < n ==> is_xml_space(s@[j]),
        decreases end,
    {
        end = end - 1;
    }
    let r = String::from_str(s.substring_char(start, end));
    proof {
        lemma_trim_front_skip(s@, start as int);
        let sk = s@.skip(start as int);
        if start < n {
            assert(sk[0] == s@[start as int]);
            assert(!is_xml_space(sk[0]));
        }
        assert(trim_front(sk) == sk);
        assert(forall|j: int|
            end - start <= j < sk.len() ==> is_xml_space(#[trigger] sk[j]));
        lemma_trim_back_take(sk, end - start);
        let tk = sk.take(end - start);
        assert(tk =~= s@.subrange(start as int, end as int));
        if end > start {
            assert(tk.last() == s@[end - 1]);
            assert(!is_xml_space(tk.last()));
        }
        assert(trim_back(tk) == tk);
    }
    r
}

/// The trimmed text content of an element: every text run among its
/// children joined in document order, with surrounding whitespace removed.
/// The empty string when no text is present.
pub fn get_element_text(e: &XmlElement) -> (r: String)
    ensures
        r@ == elem_text(*e),
{
    let mut acc = String::new();
    let n = e.children.len();
    let mut i: usize = 0;
    while i < n
        invariant
            i <= n,
            n == e.children.len(),
            acc@ == all_text(e.children@.take(i as int)),
        decreases n - i,
    {
        match &e.children[i] {
            XmlNode::Text(t) => {
                acc.append(t.as_str());
            },
            XmlNode::Element(_) => {},
        }
        proof {
            let pre = e.children@.take(i as int);
            let cur = e.children@.take(i + 1);
            assert(cur.drop_last() =~= pre);
            assert(cur.last() == e.children@[i as int]);
            assert(acc@ =~= all_text(cur));
        }
        i = i + 1;
    }
    proof {
        assert(e.children@.take(n as int) =~= e.children@);
    }
    trim_str(acc.as_str())
}

proof fn lemma_first_named_skip(s: Seq<XmlNode>, name: Seq<char>, i: int)
    requires
        0 <= i <= s.len(),
        forall|j: int| 0 <= j < i ==> !is_named_elem(s[j], name),
    ensures
        first_named(s, name) == first_named(s.skip(i), name),
    decreases i,
{
    if i > 0 {
        assert(!is_named_elem(s[0], name));
        assert(s.drop_first() =~= s.skip(1));
        assert(forall|j: int| 0 <= j < i - 1 ==> !is_named_elem(#[trigger] s.skip(1)[j], name));
        lemma_first_named_skip(s.skip(1), name, i - 1);
        assert(s.skip(1).skip(i - 1) =~= s.skip(i));
    } else {
        assert(s.skip(0) =~= s);
    }
}

/// The first child element with the given name, if any.
pub fn get_child<'a>(e: &'a XmlElement, name: &str) -> (r: Option<&'a XmlElement>)
    ensures
        match r {
            Some(c) => child_named(*e, name@) == Some(*c),
            None => child_named(*e, name@) is None,
        },
{
    let n = e.children.len();
    let mut i: usize = 0;
    while i < n
        invariant
            i <= n,
            n == e.children.len(),
            forall|j: int| 0 <= j < i ==> !is_named_elem(e.children@[j], name@),
        decreases n - i,
    {
        match &e.children[i] {
            XmlNode::Element(c) => {
                if str_eq(c.name.as_str(), name) {
                    proof {
                        lemma_first_named_skip(e.children@, name@, i as int);
                        let sk = e.children@.skip(i as int);
                        assert(sk[0] == e.children@[i as int]);
                    }
                    return Some(c);
                }
            },
            XmlNode::Text(_) => {},
        }
        i = i + 1;
    }
    proof {
        lemma_first_named_skip(e.children@, name@, n as int);
        assert(e.children@.skip(n as int) =~= Seq::<XmlNode>::empty());
    }
    None
}

/// The trimmed text content of the named child element; `None` when the
/// child does not exist.
pub fn get_text_of_child_element(e: &XmlElement, name: &str) -> (r: Option<String>)
    ensures
        match r {
            Some(t) => child_text(*e, name@) == Some(t@),
            None => child_text(*e, name@) is None,
        },
{
    match get_child(e, name) {
        Some(c) => Some(get_element_text(c)),
        None => None,
    }
}

proof fn lemma_attr_in_skip(s: Seq<(String, String)>, name: Seq<char>, i: int)
    requires
        0 <= i <= s.len(),
        forall|j: int| 0 <= j < i ==> (#[trigger] s[j]).0@ != name,
    ensures
        attr_in(s, name) == attr_in(s.skip(i), name),
    decreases i,
{
    if i > 0 {
        assert(s[0].0@ != name);
        assert(s.drop_first() =~= s.skip(1));
        assert(forall|j: int| 0 <= j < i - 1 ==> (#[trigger] s.skip(1)[j]).0@ != name);
        lemma_attr_in_skip(s.skip(1), name, i - 1);
        assert(s.skip(1).skip(i - 1) =~= s.skip(i));
    } else {
        assert(s.skip(0) =~= s);
    }
}

/// The value of the named attribute; `None` when no attribute of that
/// name is present.
pub fn get_text_of_attribute(e: &XmlElement, name: &str) -> (r: Option<String>)
    ensures
        match r {
            Some(t) => attr_text(*e, name@) == Some(t@),
            None => attr_text(*e, name@) is None,
        },
{
    let n = e.attributes.len();
    let mut i: usize = 0;
    while i < n
        invariant
            i <= n,
            n == e.attributes.len(),
            forall|j: int| 0 <= j < i ==> (#[trigger] e.attributes@[j]).0@ != name@,
        decreases n - i,
    {
        let pair = &e.attributes[i];
        if str_eq(pair.0.as_str(), name) {
            proof {
                lemma_attr_in_skip(e.attributes@, name@, i as int);
                let sk = e.attributes@.skip(i as int);
                assert(sk[0] == e.attributes@[i as int]);
            }
            return Some(pair.1.clone());
        }
        i = i + 1;
    }
    proof {
        lemma_attr_in_skip(e.attributes@, name@, n as int);
        assert(e.attributes@.skip(n as int) =~= Seq::<(String, String)>::empty());
    }
    None
}

/// The trimmed text of every child element with the given name, in
/// document order. Empty when no such child exists.
pub fn get_text_of_child_elements(e: &XmlElement, name: &str) -> (r: Vec<String>)
    ensures
        r@.len() == children_named(*e, name@).len(),
        forall|k: int|
            0 <= k < r@.len() ==> r@[k]@ == elem_text(#[trigger] children_named(*e, name@)[k]),
{
    let mut out: Vec<String> = Vec::new();
    let n = e.children.len();
    let mut i: usize = 0;
    while i < n
        invariant
            i <= n,
            n == e.children.len(),
            out@.len() == named_elems(e.children@.take(i as int), name@).len(),
            forall|k: int|
                0 <= k < out@.len() ==> out@[k]@ == elem_text(
                    #[trigger] named_elems(e.children@.take(i as int), name@)[k],
                ),
        decreases n - i,
    {
        let ghost pre = named_elems(e.children@.take(i as int), name@);
        match &e.children[i] {
            XmlNode::Element(c) => {
                if str_eq(c.name.as_str(), name) {
                    out.push(get_element_text(c));
                }
            },
            XmlNode::Text(_) => {},
        }
        proof {
            let cur = e.children@.take(i + 1);
            assert(cur.drop_last() =~= e.children@.take(i as int));
            assert(cur.last() == e.children@[i as int]);
            let post = named_elems(cur, name@);
            if is_named_elem(e.children@[i as int], name@) {
                assert(post =~= pre.push(e.children@[i as int]->Element_0));
            } else {
                assert(post =~= pre);
            }
        }
        i = i + 1;
    }
    proof {
        assert(e.children@.take(n as int) =~= e.children@);
    }
    out
}

} // verus!
