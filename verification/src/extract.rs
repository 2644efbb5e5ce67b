//! Field extractors: the composable shapes that every compound converter
//! is assembled from. Optional extraction yields `None` for an absent
//! child; required extraction fails fast with a Missing-Required-Field
//! error naming the exact dotted schema path; repeated extraction gathers
//! every same-named child in document order, failing fast on the first
//! conversion error.

use vstd::prelude::*;
use crate::error::{ErrView, FomError, parsed};
use crate::xml::{
    XmlElement, XmlNode, child_named, child_text, child_texts, children_named, get_child,
    get_text_of_child_element, get_text_of_child_elements, named_elems, str_eq,
};

verus! {

broadcast use vstd::std_specs::vec::group_vec_axioms;

/// Required-scalar extraction: the trimmed text of the named child, or a
/// Missing-Required-Field failure naming the schema path.
pub open spec fn required_text_spec(e: XmlElement, name: Seq<char>, path: Seq<char>) -> Result<
    Seq<char>,
    ErrView,
> {
    match child_text(e, name) {
        Some(t) => Ok(t),
        None => Err(ErrView::MissingRequiredField(path)),
    }
}

/// The trimmed text of the named child element, or a
/// Missing-Required-Field error naming `path` when the child is absent.
pub fn get_required_text(e: &XmlElement, name: &str, path: &str) -> (r: Result<String, FomError>)
    ensures
        parsed(r) == required_text_spec(*e, name@, path@),
{
    match get_text_of_child_element(e, name) {
        Some(t) => Ok(t),
        None => Err(FomError::missing(path)),
    }
}

/// The named child element itself, or a Missing-Required-Field error
/// naming `path` when it is absent.
pub fn get_required_child<'a>(e: &'a XmlElement, name: &str, path: &str) -> (r: Result<
    &'a XmlElement,
    FomError,
>)
    ensures
        match r {
            Ok(c) => child_named(*e, name@) == Some(*c),
            Err(err) => child_named(*e, name@) is None && err@ == ErrView::MissingRequiredField(
                path@,
            ),
        },
{
    match get_child(e, name) {
        Some(c) => Ok(c),
        None => Err(FomError::missing(path)),
    }
}

/// Repeated extraction under a fallible per-element conversion `f`:
/// every child element with the given name is converted in document
/// order, and the first conversion failure aborts the whole list.
pub open spec fn list_spec<V>(
    s: Seq<XmlNode>,
    name: Seq<char>,
    f: spec_fn(XmlElement) -> Result<V, ErrView>,
) -> Result<Seq<V>, ErrView>
    decreases s.len(),
{
    if s.len() == 0 {
        Ok(Seq::empty())
    } else {
        match list_spec(s.drop_last(), name, f) {
            Err(er) => Err(er),
            Ok(pre) => match s.last() {
                XmlNode::Element(c) => if c.name@ == name {
                    match f(c) {
                        Ok(v) => Ok(pre.push(v)),
                        Err(er) => Err(er),
                    }
                } else {
                    Ok(pre)
                },
                XmlNode::Text(_) => Ok(pre),
            },
        }
    }
}

/// Zero repeated matches are *absent*, not an empty collection.
pub open spec fn absent_if_empty<V>(s: Seq<V>) -> Option<Seq<V>> {
    if s.len() == 0 {
        None
    } else {
        Some(s)
    }
}

/// Repeated extraction wrapped in the absent-vs-empty convention.
pub open spec fn opt_list_spec<V>(
    s: Seq<XmlNode>,
    name: Seq<char>,
    f: spec_fn(XmlElement) -> Result<V, ErrView>,
) -> Result<Option<Seq<V>>, ErrView> {
    match list_spec(s, name, f) {
        Ok(items) => Ok(absent_if_empty(items)),
        Err(er) => Err(er),
    }
}

/// Repeated-text extraction under the absent-vs-empty convention: the
/// trimmed texts of every child element with the given name, or `None`
/// when there is no such child.
pub fn get_texts_opt(e: &XmlElement, name: &str) -> (r: Option<Vec<String>>)
    ensures
        r.deep_view() == absent_if_empty(child_texts(*e, name@)),
{
    let v = get_text_of_child_elements(e, name);
    proof {
        assert(v.deep_view() =~= child_texts(*e, name@));
    }
    if v.len() == 0 {
        proof {
            assert(child_texts(*e, name@).len() == children_named(*e, name@).len());
        }
        None
    } else {
        Some(v)
    }
}

/// Repeated extraction under an infallible per-element conversion `g`:
/// every child element with the given name, converted, in document order.
pub open spec fn total_list_spec<V>(
    s: Seq<XmlNode>,
    name: Seq<char>,
    g: spec_fn(XmlElement) -> V,
) -> Seq<V> {
    named_elems(s, name).map_values(g)
}

/// Convert every child element with the given name, in document order,
/// by the infallible conversion `f`, whose behaviour is described by the
/// spec-level conversion `g`.
pub fn collect_children_total<T: DeepView, F: Fn(&XmlElement) -> T>(
    e: &XmlElement,
    name: &str,
    f: F,
    Ghost(g): Ghost<spec_fn(XmlElement) -> T::V>,
) -> (r: Vec<T>)
    requires
        forall|c: &XmlElement| #[trigger] call_requires(f, (c,)),
        forall|c: &XmlElement, ret: T|
            #[trigger] call_ensures(f, (c,), ret) ==> ret.deep_view() == g(*c),
    ensures
        r.deep_view() == total_list_spec(e.children@, name@, g),
{
    let mut out: Vec<T> = Vec::new();
    proof {
        assert(e.children@.take(0) =~= Seq::<XmlNode>::empty());
        assert(out.deep_view() =~= total_list_spec(e.children@.take(0), name@, g));
    }
    let n = e.children.len();
    let mut i: usize = 0;
    while i < n
        invariant
            i <= n,
            n == e.children.len(),
            forall|c: &XmlElement| #[trigger] call_requires(f, (c,)),
            forall|c: &XmlElement, ret: T|
                #[trigger] call_ensures(f, (c,), ret) ==> ret.deep_view() == g(*c),
            out.deep_view() == total_list_spec(e.children@.take(i as int), name@, g),
        decreases n - i,
    {
        let ghost pre = out.deep_view();
        match &e.children[i] {
            XmlNode::Element(c) => {
                if str_eq(c.name.as_str(), name) {
                    let t = f(c);
                    out.push(t);
                    proof {
                        assert(out.deep_view() =~= pre.push(t.deep_view()));
                    }
                }
            },
            XmlNode::Text(_) => {},
        }
        proof {
            let cur = e.children@.take(i + 1);
            assert(cur.drop_last() =~= e.children@.take(i as int));
            assert(cur.last() == e.children@[i as int]);
            assert(out.deep_view() =~= total_list_spec(cur, name@, g));
        }
        i = i + 1;
    }
    proof {
        assert(e.children@.take(n as int) =~= e.children@);
    }
    out
}

proof fn lemma_list_spec_err<V>(
    s: Seq<XmlNode>,
    name: Seq<char>,
    f: spec_fn(XmlElement) -> Result<V, ErrView>,
    i: int,
)
    requires
        0 <= i <= s.len(),
        list_spec(s.take(i), name, f) is Err,
    ensures
        list_spec(s, name, f) == list_spec(s.take(i), name, f),
    decreases s.len() - i,
{
    if i < s.len() {
        assert(s.take(i + 1).drop_last() =~= s.take(i));
        lemma_list_spec_err(s, name, f, i + 1);
    } else {
        assert(s.take(i) =~= s);
    }
}

/// For any node missing a named child, optional extraction yields
/// absent, and required extraction fails with a Missing-Required-Field
/// error naming that exact schema path.
pub proof fn lemma_missing_child_extraction(e: XmlElement, name: Seq<char>, path: Seq<char>)
    requires
        child_named(e, name) is None,
    ensures
        child_text(e, name) is None,
        required_text_spec(e, name, path) == Err::<Seq<char>, ErrView>(
            ErrView::MissingRequiredField(path),
        ),
{
}

/// For N repeated same-named children, repeated extraction yields
/// exactly N converted items in document order; and zero matches are
/// *absent*, distinguishable from a present-but-empty collection.
pub proof fn lemma_repeated_extraction<V>(
    s: Seq<XmlNode>,
    name: Seq<char>,
    g: spec_fn(XmlElement) -> V,
)
    ensures
        total_list_spec(s, name, g).len() == named_elems(s, name).len(),
        forall|k: int|
            0 <= k < named_elems(s, name).len() ==> total_list_spec(s, name, g)[k] == g(
                #[trigger] named_elems(s, name)[k],
            ),
        absent_if_empty(total_list_spec(s, name, g)) is None <==> named_elems(s, name).len() == 0,
        named_elems(s, name).len() > 0 ==> absent_if_empty(total_list_spec(s, name, g))
            == Some(total_list_spec(s, name, g)),
{
}

/// Convert every child element with the given name, in document order,
/// by the conversion `f`, whose behaviour is described by the spec-level
/// conversion `g`. Fails fast on the first conversion error.
pub fn collect_children<T: DeepView, F: Fn(&XmlElement) -> Result<T, FomError>>(
    e: &XmlElement,
    name: &str,
    f: F,
    Ghost(g): Ghost<spec_fn(XmlElement) -> Result<T::V, ErrView>>,
) -> (r: Result<Vec<T>, FomError>)
    requires
        forall|c: &XmlElement| #[trigger] call_requires(f, (c,)),
        forall|c: &XmlElement, ret: Result<T, FomError>|
            #[trigger] call_ensures(f, (c,), ret) ==> parsed(ret) == g(*c),
    ensures
        parsed(r) == list_spec(e.children@, name@, g),
{
    let mut out: Vec<T> = Vec::new();
    proof {
        assert(e.children@.take(0) =~= Seq::<XmlNode>::empty());
        assert(out.deep_view() =~= Seq::<T::V>::empty());
    }
    let n = e.children.len();
    let mut i: usize = 0;
    while i < n
        invariant
            i <= n,
            n == e.children.len(),
            forall|c: &XmlElement| #[trigger] call_requires(f, (c,)),
            forall|c: &XmlElement, ret: Result<T, FomError>|
                #[trigger] call_ensures(f, (c,), ret) ==> parsed(ret) == g(*c),
            list_spec(e.children@.take(i as int), name@, g) == Ok::<Seq<T::V>, ErrView>(
                out.deep_view(),
            ),
        decreases n - i,
    {
        let ghost pre = out.deep_view();
        match &e.children[i] {
            XmlNode::Element(c) => {
                if str_eq(c.name.as_str(), name) {
                    match f(c) {
                        Ok(t) => {
                            out.push(t);
                            proof {
                                assert(out.deep_view() =~= pre.push(t.deep_view()));
                            }
                        },
                        Err(err) => {
                            proof {
                                let cur = e.children@.take(i + 1);
                                assert(cur.drop_last() =~= e.children@.take(i as int));
                                assert(cur.last() == e.children@[i as int]);
                                lemma_list_spec_err(e.children@, name@, g, i + 1);
                            }
                            return Err(err);
                        },
                    }
                }
            },
            XmlNode::Text(_) => {},
        }
        proof {
            let cur = e.children@.take(i + 1);
            assert(cur.drop_last() =~= e.children@.take(i as int));
            assert(cur.last() == e.children@[i as int]);
        }
        i = i + 1;
    }
    proof {
        assert(e.children@.take(n as int) =~= e.children@);
    }
    Ok(out)
}

} // verus!
