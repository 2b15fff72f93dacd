//! Identity and bookkeeping fields of a desired-state resource.

use crate::error::{result_view, Error, ErrorView};
use vstd::prelude::*;

verus! {

/// Backward link from a child object to the resource that owns it.  The
/// platform's garbage collector removes a child once its owner is gone.
#[derive(Clone, Debug, PartialEq, Eq)]
pub struct OwnerReference {
    pub api_version: String,
    pub kind: String,
    pub name: String,
    pub uid: String,
    /// Whether the owner is the managing controller of the child.
    pub controller: bool,
}

pub struct OwnerReferenceView {
    pub api_version: Seq<char>,
    pub kind: Seq<char>,
    pub name: Seq<char>,
    pub uid: Seq<char>,
    pub controller: bool,
}

impl View for OwnerReference {
    type V = OwnerReferenceView;

    open spec fn view(&self) -> OwnerReferenceView {
        OwnerReferenceView {
            api_version: self.api_version@,
            kind: self.kind@,
            name: self.name@,
            uid: self.uid@,
            controller: self.controller,
        }
    }
}

/// Snapshot of the metadata of a desired-state resource, as delivered with a
/// change event.
#[derive(Clone, Debug, PartialEq, Eq)]
pub struct Metadata {
    pub name: Option<String>,
    pub namespace: Option<String>,
    pub uid: Option<String>,
    /// Finalizer tokens currently held on the resource, in stored order.
    pub finalizers: Vec<String>,
    /// Whether deletion of the resource has been requested.
    pub deletion_requested: bool,
}

pub struct MetadataView {
    pub name: Option<Seq<char>>,
    pub namespace: Option<Seq<char>>,
    pub uid: Option<Seq<char>>,
    pub finalizers: Seq<Seq<char>>,
    pub deletion_requested: bool,
}

impl View for Metadata {
    type V = MetadataView;

    open spec fn view(&self) -> MetadataView {
        MetadataView {
            name: self.name.deep_view(),
            namespace: self.namespace.deep_view(),
            uid: self.uid.deep_view(),
            finalizers: self.finalizers.deep_view(),
            deletion_requested: self.deletion_requested,
        }
    }
}

/// Position of the first occurrence of `token` in `tokens`, if there is one.
pub open spec fn first_index_of(tokens: Seq<Seq<char>>, token: Seq<char>) -> Option<int>
    decreases tokens.len(),
{
    if tokens.len() == 0 {
        None
    } else if tokens[0] == token {
        Some(0)
    } else {
        match first_index_of(tokens.drop_first(), token) {
            Some(i) => Some(i + 1),
            None => None,
        }
    }
}

/// `first_index_of` finds `token` exactly when it occurs, and then at its
/// first position.
pub proof fn lemma_first_index_of(tokens: Seq<Seq<char>>, token: Seq<char>)
    ensures
        match first_index_of(tokens, token) {
            Some(i) => 0 <= i < tokens.len() && tokens[i] == token && forall|j: int|
                0 <= j < i ==> tokens[j] != token,
            None => forall|j: int| 0 <= j < tokens.len() ==> tokens[j] != token,
        },
    decreases tokens.len(),
{
    if tokens.len() > 0 && tokens[0] != token {
        let rest = tokens.drop_first();
        lemma_first_index_of(rest, token);
        match first_index_of(rest, token) {
            Some(i) => {
                assert forall|j: int| 0 <= j < i + 1 implies tokens[j] != token by {
                    if j > 0 {
                        assert(rest[j - 1] == tokens[j]);
                    }
                }
            },
            None => {
                assert forall|j: int| 0 <= j < tokens.len() implies tokens[j] != token by {
                    if j > 0 {
                        assert(rest[j - 1] == tokens[j]);
                    }
                }
            },
        }
    }
}

/// The controller owner reference to the resource that `meta` describes,
/// of the given API version and kind.  It needs the name and the uid of the
/// resource; the error names the first of the two that is missing.
pub open spec fn spec_owner_reference(
    meta: MetadataView,
    api_version: Seq<char>,
    kind: Seq<char>,
) -> Result<OwnerReferenceView, ErrorView> {
    match (meta.name, meta.uid) {
        (None, _) => Err(ErrorView::MissingObjectKey(".metadata.name"@)),
        (Some(_), None) => Err(ErrorView::MissingObjectKey(".metadata.uid"@)),
        (Some(name), Some(uid)) => Ok(
            OwnerReferenceView { api_version, kind, name, uid, controller: true },
        ),
    }
}

impl Metadata {
    /// Position of `token` among the finalizers held on the resource.
    pub fn finalizer_index(&self, token: &String) -> (found: Option<usize>)
        ensures
            found.is_some() == first_index_of(self@.finalizers, token@).is_some(),
            found matches Some(i) ==> first_index_of(self@.finalizers, token@) == Some(i as int),
    {
        let mut i: usize = 0;
        let ghost all = self@.finalizers;
        while i < self.finalizers.len()
            invariant
                i <= self.finalizers.len(),
                all == self@.finalizers,
                all.len() == self.finalizers.len(),
                forall|j: int| 0 <= j < i ==> all[j] != token@,
            decreases self.finalizers.len() - i,
        {
            if self.finalizers[i] == *token {
                proof {
                    lemma_first_index_of(all, token@);
                    assert(all[i as int] == self.finalizers[i as int]@);
                }
                return Some(i);
            }
            assert(all[i as int] == self.finalizers[i as int]@);
            i += 1;
        }
        proof {
            lemma_first_index_of(all, token@);
        }
        None
    }

    /// Controller owner reference to the resource described by this
    /// metadata.
    pub fn owner_reference(&self, api_version: &str, kind: &str) -> (owner: Result<
        OwnerReference,
        Error,
    >)
        ensures
            result_view(owner) == spec_owner_reference(self@, api_version@, kind@),
    {
        match (&self.name, &self.uid) {
            (None, _) => Err(Error::MissingObjectKey(".metadata.name")),
            (Some(_), None) => Err(Error::MissingObjectKey(".metadata.uid")),
            (Some(name), Some(uid)) => Ok(
                OwnerReference {
                    api_version: api_version.to_owned(),
                    kind: kind.to_owned(),
                    name: name.clone(),
                    uid: uid.clone(),
                    controller: true,
                },
            ),
        }
    }
}

} // verus!
