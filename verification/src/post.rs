//! Authorization-gated creation of a post record.
//!
//! Creation re-validates the supplied token at write time — rather than
//! trusting a prior log-in — so a stale or forged client-side identity claim
//! is refused before anything is written. The refusal is silent: a single
//! outcome, not an error that would leak which part of the credential was
//! wrong. Whether the token check itself succeeds depends on the clock, so
//! [`Backend::do_post`] cannot promise acceptance; everything after the
//! check stands in [`Backend::apply_post`], whose contract fixes the outcome
//! for each value of the check's result.

use crate::account::Backend;
use crate::store::Post;
use crate::token::{check_jwt, jwt_of};
use vstd::prelude::*;

verus! {

/// Outcome of a post-creation attempt: accepted and persisted, or refused
/// with nothing written.
#[derive(Debug, Clone, PartialEq, Eq, Structural)]
pub enum PostResult {
    Accepted,
    Refuse,
}

impl Backend {
    /// Applies the outcome of the authorization check: the request is
    /// accepted exactly when the check succeeded. An authorized request
    /// appends exactly one post, carrying the claimed author, the given
    /// title, body, tags and experience flag, and an empty comment list,
    /// and touches nothing else; an unauthorized one writes nothing.
    pub fn apply_post(
        &mut self,
        authorized: bool,
        name: String,
        title: String,
        body: String,
        tag: Option<Vec<String>>,
        is_advanced: bool,
    ) -> (r: PostResult)
        requires
            tag is Some,
        ensures
            r == PostResult::Accepted <==> authorized,
            !authorized ==> r == PostResult::Refuse && *final(self) == *old(self),
            authorized ==> {
                &&& final(self).store.posts@.len() == old(self).store.posts@.len() + 1
                &&& final(self).store.posts@.subrange(0, old(self).store.posts@.len() as int)
                    == old(self).store.posts@
                &&& final(self).store.posts@.last().name@ == name@
                &&& final(self).store.posts@.last().title@ == title@
                &&& final(self).store.posts@.last().body@ == body@
                &&& final(self).store.posts@.last().tag@ == tag->Some_0@
                &&& final(self).store.posts@.last().comment@ == Seq::<(String, String)>::empty()
                &&& final(self).store.posts@.last().is_advanced == is_advanced
                &&& final(self).store.users@ == old(self).store.users@
                &&& final(self).store.tags@ == old(self).store.tags@
                &&& final(self).jwt_secret == old(self).jwt_secret
                &&& final(self).token_expiry == old(self).token_expiry
            },
    {
        if !authorized {
            return PostResult::Refuse;
        }
        let ghost old_posts = self.store.posts@;
        let post = Post {
            name,
            body,
            tag: tag.unwrap(),
            title,
            comment: Vec::new(),
            is_advanced,
        };
        self.store.posts.push(post);
        proof {
            assert(self.store.posts@.subrange(0, old_posts.len() as int) =~= old_posts);
        }
        PostResult::Accepted
    }

    /// Creates a post after re-verifying that the token's subject is the
    /// claimed author: the outcome of [`Self::apply_post`] on that check. On
    /// refusal nothing is written; a token issued for any other subject is
    /// always refused. On success exactly one post is appended, carrying the
    /// claimed author, the given title, body, tags and experience flag, and
    /// an empty comment list.
    pub fn do_post(
        &mut self,
        name: String,
        jwt: String,
        title: String,
        body: String,
        tag: Option<Vec<String>>,
        is_advanced: bool,
    ) -> (r: PostResult)
        requires
            tag is Some,
        ensures
            forall|subject: Seq<char>, expiry: i64|
                jwt@ == #[trigger] jwt_of(old(self).jwt_secret@, subject, expiry) && subject
                    != name@ ==> r == PostResult::Refuse,
            r == PostResult::Refuse ==> *final(self) == *old(self),
            r == PostResult::Accepted ==> {
                &&& final(self).store.posts@.len() == old(self).store.posts@.len() + 1
                &&& final(self).store.posts@.subrange(0, old(self).store.posts@.len() as int)
                    == old(self).store.posts@
                &&& final(self).store.posts@.last().name@ == name@
                &&& final(self).store.posts@.last().title@ == title@
                &&& final(self).store.posts@.last().body@ == body@
                &&& final(self).store.posts@.last().tag@ == tag->Some_0@
                &&& final(self).store.posts@.last().comment@ == Seq::<(String, String)>::empty()
                &&& final(self).store.posts@.last().is_advanced == is_advanced
                &&& final(self).store.users@ == old(self).store.users@
                &&& final(self).store.tags@ == old(self).store.tags@
                &&& final(self).jwt_secret == old(self).jwt_secret
                &&& final(self).token_expiry == old(self).token_expiry
            },
    {
        let authorized = check_jwt(&self.jwt_secret, &name, &jwt);
        self.apply_post(authorized, name, title, body, tag, is_advanced)
    }
}

} // verus!
