//! The reference resolver: a reference names a document and a path into it,
//! and is resolved by walking the path through the mappings of the document,
//! segment by segment. Documents are loaded by the caller and kept in a cache,
//! each once under its path.
use vstd::prelude::*;
use vstd::string::*;
use crate::ir::{CompileError, CompileErrorKind, CompileErrorView};
use crate::model::{agrees, error};
use crate::model_spec::fail;
use crate::outside::{join_paths, parent_of};
use crate::table::{find_key, has_key, lookup};
use crate::text::{split, split_on, starts_with, tail_from};

verus! {

/// A value of a document as it was read, before anything is made of it.
#[derive(Debug, PartialEq, Eq)]
pub enum Node {
    Null,
    Bool(bool),
    /// A number, as the document writes it.
    Number(String),
    Text(String),
    Sequence(Vec<Node>),
    /// A mapping, in the order of the document; only its text keys are held.
    Mapping(Vec<(String, Node)>),
}

pub enum NodeView {
    Null,
    Bool(bool),
    Number(Seq<char>),
    Text(Seq<char>),
    Sequence(Seq<NodeView>),
    Mapping(Seq<(Seq<char>, NodeView)>),
}

/// The view of a value of a document.
pub open spec fn node_view(node: Node) -> NodeView
    decreases node,
{
    match node {
        Node::Null => NodeView::Null,
        Node::Bool(b) => NodeView::Bool(b),
        Node::Number(text) => NodeView::Number(text@),
        Node::Text(text) => NodeView::Text(text@),
        Node::Sequence(items) => NodeView::Sequence(
            Seq::new(
                items@.len(),
                |i: int|
                    if 0 <= i < items@.len() {
                        node_view(items@[i])
                    } else {
                        arbitrary()
                    },
            ),
        ),
        Node::Mapping(entries) => NodeView::Mapping(
            Seq::new(
                entries@.len(),
                |i: int|
                    if 0 <= i < entries@.len() {
                        (entries@[i].0@, node_view(entries@[i].1))
                    } else {
                        arbitrary()
                    },
            ),
        ),
    }
}

impl DeepView for Node {
    type V = NodeView;

    open spec fn deep_view(&self) -> NodeView {
        node_view(*self)
    }
}

/// The documents that have been loaded, each under its path.
#[derive(Debug, PartialEq, Eq)]
pub struct DocCache {
    pub docs: Vec<(String, Node)>,
}

impl DeepView for DocCache {
    type V = Seq<(Seq<char>, NodeView)>;

    open spec fn deep_view(&self) -> Seq<(Seq<char>, NodeView)> {
        self.docs.deep_view()
    }
}

impl DocCache {
    /// A cache without documents.
    pub fn new() -> (r: Self)
        ensures
            r.deep_view().len() == 0,
    {
        let docs: Vec<(String, Node)> = Vec::new();
        assert(docs.deep_view() =~= Seq::empty());
        DocCache { docs }
    }

    /// Whether the document at `path` has been loaded.
    pub fn contains(&self, path: &str) -> (r: bool)
        ensures
            r == has_key(self.deep_view(), path@),
    {
        find_key(&self.docs, path) < self.docs.len()
    }

    /// Keeps the document `doc` under `path`, unless a document is kept under
    /// that path already: a document is loaded at most once.
    pub fn insert(&mut self, path: String, doc: Node)
        ensures
            has_key(old(self).deep_view(), path@) ==> final(self).deep_view() == old(
                self,
            ).deep_view(),
            !has_key(old(self).deep_view(), path@) ==> final(self).deep_view() == old(
                self,
            ).deep_view().push((path@, doc.deep_view())),
    {
        if find_key(&self.docs, path.as_str()) >= self.docs.len() {
            let ghost before = self.docs.deep_view();
            self.docs.push((path, doc));
            assert(self.docs.deep_view() =~= before.push((path@, doc.deep_view())));
        }
    }
}

/// The two parts of a reference: the path of the document it names, which is
/// empty for the own document, and the path into that document, without the
/// slash it begins with.
pub open spec fn reference_parts(reference: Seq<char>) -> Result<
    (Seq<char>, Seq<char>),
    CompileErrorView,
> {
    let parts = split_on(reference, '#');
    if parts.len() != 2 || parts[1].len() == 0 || parts[1][0] != '/' {
        fail(CompileErrorKind::InvalidReference, reference)
    } else {
        Ok((parts[0], parts[1].subrange(1, parts[1].len() as int)))
    }
}

/// Splits a reference into the path of its document and the path into it.
pub fn split_reference(reference: &str) -> (res: Result<(String, String), CompileError>)
    ensures
        agrees(res, reference_parts(reference@)),
{
    let mut parts = split(reference, '#');
    if parts.len() != 2 {
        return Err(error(CompileErrorKind::InvalidReference, reference));
    }
    assert(parts.deep_view()[1] == parts[1]@);
    assert(parts.deep_view()[0] == parts[0]@);
    if !starts_with(parts[1].as_str(), "/") {
        proof {
            reveal_strlit("/");
            let p = parts[1]@;
            if p.len() > 0 && p[0] == '/' {
                assert(p.subrange(0, 1) =~= "/"@);
            }
        }
        return Err(error(CompileErrorKind::InvalidReference, reference));
    }
    proof {
        reveal_strlit("/");
        let p = parts[1]@;
        assert(p.subrange(0, 1)[0] == '/');
    }
    let rel_ref = tail_from(parts[1].as_str(), 1);
    let _ = parts.pop();
    let rel_path = parts.pop().unwrap();
    Ok((rel_path, rel_ref))
}

/// Where a path into a document leads: the mapping at its end and the name of
/// that mapping, which is the last segment. Every segment must be a key of
/// the mapping before it, and a mapping must stand under it.
pub open spec fn walked(node: NodeView, segments: Seq<Seq<char>>, name: Seq<char>) -> Result<
    (NodeView, Seq<char>),
    CompileErrorView,
>
    decreases segments.len(),
{
    if segments.len() == 0 {
        Ok((node, name))
    } else {
        match node {
            NodeView::Mapping(entries) => match lookup(entries, segments[0]) {
                None => fail(CompileErrorKind::SegmentNotFound, segments[0]),
                Some(child) => if child is Mapping {
                    walked(child, segments.drop_first(), segments[0])
                } else {
                    fail(CompileErrorKind::NotAMapping, segments[0])
                },
            },
            _ => fail(CompileErrorKind::NotAMapping, name),
        }
    }
}

/// Whether a mapping is itself a reference.
pub open spec fn is_reference(node: NodeView) -> bool {
    node matches NodeView::Mapping(entries) && lookup(entries, "$ref"@) matches Some(
        NodeView::Text(_),
    )
}

/// The target of the path `rel_ref` into the document `doc`: the mapping it
/// leads to and its name. A target that is itself a reference is not
/// followed: that is an error.
pub open spec fn target_in(doc: NodeView, rel_ref: Seq<char>, reference: Seq<char>) -> Result<
    (NodeView, Seq<char>),
    CompileErrorView,
> {
    match walked(doc, split_on(rel_ref, '/'), Seq::empty()) {
        Err(e) => Err(e),
        Ok((target, name)) => if is_reference(target) {
            fail(CompileErrorKind::ReferenceChain, reference)
        } else {
            Ok((target, name))
        },
    }
}

/// What a reference resolves to.
#[derive(Debug, PartialEq, Eq)]
pub struct ResolvedReference<'a> {
    /// The path into the document, without the `#/` it begins with.
    pub root_rel_ref: String,
    pub target: &'a Node,
    pub target_name: String,
}

pub struct ResolvedReferenceView {
    pub root_rel_ref: Seq<char>,
    pub target: NodeView,
    pub target_name: Seq<char>,
}

impl<'a> DeepView for ResolvedReference<'a> {
    type V = ResolvedReferenceView;

    open spec fn deep_view(&self) -> ResolvedReferenceView {
        ResolvedReferenceView {
            root_rel_ref: self.root_rel_ref@,
            target: self.target.deep_view(),
            target_name: self.target_name@,
        }
    }
}

/// What the path `rel_ref` into the document `doc` resolves to.
pub open spec fn resolved_in(doc: NodeView, rel_ref: Seq<char>, reference: Seq<char>) -> Result<
    ResolvedReferenceView,
    CompileErrorView,
> {
    match target_in(doc, rel_ref, reference) {
        Err(e) => Err(e),
        Ok((target, name)) => Ok(
            ResolvedReferenceView { root_rel_ref: rel_ref, target, target_name: name },
        ),
    }
}

/// Resolves the path `rel_ref` into the document `doc`.
#[verifier::loop_isolation(false)]
pub fn resolve_in<'a>(doc: &'a Node, rel_ref: &str, reference: &str) -> (res: Result<
    ResolvedReference<'a>,
    CompileError,
>)
    ensures
        agrees(res, resolved_in(doc.deep_view(), rel_ref@, reference@)),
{
    let segments = split(rel_ref, '/');
    let mut node: &'a Node = doc;
    let mut name = String::new();
    let mut i: usize = 0;
    proof {
        assert(segments.deep_view().skip(0) =~= segments.deep_view());
    }
    while i < segments.len()
        invariant
            i <= segments.len(),
            walked(doc.deep_view(), segments.deep_view(), Seq::empty()) == walked(
                node.deep_view(),
                segments.deep_view().skip(i as int),
                name@,
            ),
        decreases segments.len() - i,
    {
        proof {
            let rest = segments.deep_view().skip(i as int);
            assert(rest[0] == segments[i as int]@);
            assert(rest.drop_first() =~= segments.deep_view().skip(i as int + 1));
        }
        match node {
            Node::Mapping(entries) => {
                proof {
                    assert(node.deep_view() == NodeView::Mapping(entries.deep_view())) by {
                        assert(node.deep_view()->Mapping_0 =~= entries.deep_view());
                    }
                }
                let k = find_key(entries, segments[i].as_str());
                if k >= entries.len() {
                    return Err(error(CompileErrorKind::SegmentNotFound, segments[i].as_str()));
                }
                assert(entries.deep_view()[k as int].1 == entries[k as int].1.deep_view());
                let child = &entries[k].1;
                match child {
                    Node::Mapping(_) => {
                        node = child;
                        name = segments[i].clone();
                    },
                    _ => {
                        return Err(error(CompileErrorKind::NotAMapping, segments[i].as_str()));
                    },
                }
            },
            _ => {
                return Err(error(CompileErrorKind::NotAMapping, name.as_str()));
            },
        }
        i += 1;
    }
    let chained = match node {
        Node::Mapping(entries) => {
            proof {
                assert(node.deep_view()->Mapping_0 =~= entries.deep_view());
            }
            let k = find_key(entries, "$ref");
            if k < entries.len() {
                assert(entries.deep_view()[k as int].1 == entries[k as int].1.deep_view());
                match &entries[k].1 {
                    Node::Text(_) => true,
                    _ => false,
                }
            } else {
                false
            }
        },
        _ => false,
    };
    if chained {
        return Err(error(CompileErrorKind::ReferenceChain, reference));
    }
    Ok(ResolvedReference { root_rel_ref: String::from_str(rel_ref), target: node, target_name: name })
}

/// What a reference resolves to once the path of its document is known.
pub open spec fn resolved_at(
    cache: Seq<(Seq<char>, NodeView)>,
    doc_path: Seq<char>,
    rel_ref: Seq<char>,
    reference: Seq<char>,
) -> Result<ResolvedReferenceView, CompileErrorView> {
    match lookup(cache, doc_path) {
        None => fail(CompileErrorKind::DocumentNotLoaded, doc_path),
        Some(doc) => resolved_in(doc, rel_ref, reference),
    }
}

/// Resolves the path `rel_ref` into the document at `doc_path`, which must
/// have been loaded: a document that the cache does not hold is an error that
/// names its path, so that the caller can load it and ask again.
pub fn resolve_at<'a>(cache: &'a DocCache, doc_path: &str, rel_ref: &str, reference: &str) -> (res:
    Result<ResolvedReference<'a>, CompileError>)
    ensures
        agrees(res, resolved_at(cache.deep_view(), doc_path@, rel_ref@, reference@)),
{
    let k = find_key(&cache.docs, doc_path);
    if k >= cache.docs.len() {
        return Err(error(CompileErrorKind::DocumentNotLoaded, doc_path));
    }
    assert(cache.docs.deep_view()[k as int].1 == cache.docs[k as int].1.deep_view());
    resolve_in(&cache.docs[k].1, rel_ref, reference)
}

/// Resolves a reference that stands in the document at `referrer_doc_path`:
/// the path of the document that it names and what it resolves to there. A
/// reference without a document names the referrer itself. The path of
/// another document is taken relative to the directory of the referrer; how
/// paths are joined is the platform's, so of that path the contract says only
/// that the reference was resolved in the document kept under it.
pub fn resolve_reference<'a>(
    referrer_doc_path: &str,
    reference: &str,
    cached_external_docs: &'a DocCache,
) -> (res: Result<(String, ResolvedReference<'a>), CompileError>)
    ensures
        match reference_parts(reference@) {
            Err(e) => res is Err && res->Err_0.deep_view() == e,
            Ok((rel_path, rel_ref)) => if rel_path.len() == 0 {
                match resolved_at(
                    cached_external_docs.deep_view(),
                    referrer_doc_path@,
                    rel_ref,
                    reference@,
                ) {
                    Ok(found) => res is Ok && res->Ok_0.0@ == referrer_doc_path@
                        && res->Ok_0.1.deep_view() == found,
                    Err(e) => res is Err && res->Err_0.deep_view() == e,
                }
            } else {
                match res {
                    Ok(found) => resolved_at(
                        cached_external_docs.deep_view(),
                        found.0@,
                        rel_ref,
                        reference@,
                    ) == Ok::<_, CompileErrorView>(found.1.deep_view()),
                    Err(e) => e.kind == CompileErrorKind::InvalidReference || exists|
                        path: Seq<char>,
                    |
                        resolved_at(cached_external_docs.deep_view(), path, rel_ref, reference@)
                            == Err::<ResolvedReferenceView, _>(e.deep_view()),
                }
            },
        },
{
    let (rel_path, rel_ref) = match split_reference(reference) {
        Err(e) => {
            return Err(e);
        },
        Ok(parts) => parts,
    };
    let doc_path = if rel_path.as_str().unicode_len() == 0 {
        String::from_str(referrer_doc_path)
    } else {
        match parent_of(referrer_doc_path) {
            None => {
                return Err(error(CompileErrorKind::InvalidReference, reference));
            },
            Some(parent) => join_paths(parent.as_str(), rel_path.as_str()),
        }
    };
    match resolve_at(cached_external_docs, doc_path.as_str(), rel_ref.as_str(), reference) {
        Err(e) => Err(e),
        Ok(found) => Ok((doc_path, found)),
    }
}

/// What a reference into the own document resolves to: a reference that
/// names another document is an error.
pub open spec fn resolved_locally(doc: NodeView, reference: Seq<char>) -> Result<
    ResolvedReferenceView,
    CompileErrorView,
> {
    match reference_parts(reference) {
        Err(e) => Err(e),
        Ok((rel_path, rel_ref)) => if rel_path.len() > 0 {
            fail(CompileErrorKind::NonLocalReference, reference)
        } else {
            resolved_in(doc, rel_ref, reference)
        },
    }
}

/// Resolves a reference into the document `openapi_inline` itself.
pub fn resolve_local_reference<'a>(reference: &str, openapi_inline: &'a Node) -> (res: Result<
    ResolvedReference<'a>,
    CompileError,
>)
    ensures
        agrees(res, resolved_locally(openapi_inline.deep_view(), reference@)),
{
    let (rel_path, rel_ref) = match split_reference(reference) {
        Err(e) => {
            return Err(e);
        },
        Ok(parts) => parts,
    };
    if rel_path.as_str().unicode_len() > 0 {
        return Err(error(CompileErrorKind::NonLocalReference, reference));
    }
    resolve_in(openapi_inline, rel_ref.as_str(), reference)
}

} // verus!
