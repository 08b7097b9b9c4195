//! Seeder for a demo blog backend: registers synthetic users, creates
//! articles whose tags and authors are drawn from a skewed popularity
//! distribution, and wires up favorites and follows, one HTTP request per
//! domain action. The HTTP transport stands behind the [`api::HttpPost`]
//! port and is the only unverified part of a run; everything that decides
//! or computes — request construction, response decoding, collision
//! handling, popularity sampling bounds — is verified here.

use vstd::prelude::*;
use vstd::string::StringExecFns;

pub mod api;
pub mod article;
pub mod json;
pub mod parse_utils;
pub mod sampling;

use api::HttpPost;
use api::create_article;
use api::favorite_article;
use api::follow_user;
use api::registration;
use sampling::RandomSource;
use sampling::random_string;
use sampling::spec_alphanumeric;
use sampling::zipf_index;
use sampling::zipf_item_count;
use sampling::zipf_new;

verus! {

/// Flat error taxonomy: every failure (transport error, non-success HTTP
/// status, malformed JSON response) surfaces as a plain request failure.
#[derive(Clone, Copy, Debug, PartialEq, Eq, Structural)]
pub enum ApiError {
    RequestFailed,
}

pub type ReqResult<T> = Result<T, ApiError>;

/// How many tags one run generates.
pub const NUM_TAGS: usize = 10;

/// How many user accounts one run generates beside the privileged one.
pub const NUM_USERS: usize = 10;

/// How many articles one run creates.
pub const NUM_ARTICLES: usize = 10;

/// A user's credentials, kept for authenticating later requests. The token
/// is the most recently assigned one and may be refreshed whenever the user
/// authenticates again.
#[derive(Debug)]
pub struct UserAuth {
    /// User's email.
    pub email: String,
    /// User's password.
    pub password: String,
    /// Authentication token returned after the last registration or sign in.
    pub current_token: String,
}

/// Seeds the backend by adding data through the API. Owns the lists that one
/// run accumulates: users with their credentials, tags, and article slugs,
/// each in generation order.
#[derive(Debug)]
pub struct Initializer {
    /// Users and their authentication information, in generation order; the
    /// privileged account first.
    pub users_tokens: Vec<(String, UserAuth)>,
    /// The tags available for use on articles, most popular first.
    pub tags: Vec<String>,
    /// The slugs of the created articles, in creation order.
    pub articles: Vec<String>,
}

/// The fixed privileged account created before any generated user.
pub open spec fn privileged_user_wf(e: (String, UserAuth)) -> bool {
    &&& e.0@ == "readyset"@
    &&& e.1.email@ == "ready@set.io"@
    &&& e.1.password@ == "password"@
}

/// A generated account: an alphanumeric username of 8 to 16 characters, the
/// email derived from it, and the fixed password.
pub open spec fn generated_user_wf(e: (String, UserAuth)) -> bool {
    &&& 8 <= e.0@.len() <= 16
    &&& spec_alphanumeric(e.0@)
    &&& e.1.email@ == e.0@ + "@mail.com"@
    &&& e.1.password@ == "password"@
}

/// The string is one of the list's elements.
pub open spec fn from_list(x: String, list: Seq<String>) -> bool {
    exists|j: int| 0 <= j < list.len() && x == list[j]
}

/// A generated tag: alphanumeric, 5 to 10 characters.
pub open spec fn tag_wf(t: String) -> bool {
    &&& 5 <= t@.len() <= 10
    &&& spec_alphanumeric(t@)
}

/// The username of the account at position `i` of a user list.
pub open spec fn username_at(users: Seq<(String, UserAuth)>, i: int) -> Seq<char> {
    users[i].0@
}

/// No two accounts of a user list share a username.
pub open spec fn distinct_usernames_in(users: Seq<(String, UserAuth)>) -> bool {
    forall|i: int, j: int| 0 <= i < j < users.len() ==> username_at(users, i) != username_at(users, j)
}

/// A user list as one run builds it: the privileged account first, generated
/// accounts after it, all usernames distinct.
pub open spec fn users_list_wf(users: Seq<(String, UserAuth)>) -> bool {
    &&& distinct_usernames_in(users)
    &&& users.len() >= 1 ==> privileged_user_wf(users[0])
    &&& forall|i: int| 1 <= i < users.len() ==> generated_user_wf(#[trigger] users[i])
}

/// Some account of a user list is the privileged one.
pub open spec fn has_privileged_in(users: Seq<(String, UserAuth)>) -> bool {
    exists|i: int| 0 <= i < users.len() && username_at(users, i) == "readyset"@
}

impl Initializer {
    /// The username of the user at position `i`.
    pub open spec fn username(self, i: int) -> Seq<char> {
        username_at(self.users_tokens@, i)
    }

    /// No two accounts of one run share a username.
    pub open spec fn distinct_usernames(self) -> bool {
        distinct_usernames_in(self.users_tokens@)
    }

    /// The user list as one run builds it: the privileged account first,
    /// generated accounts after it, all usernames distinct.
    pub open spec fn users_wf(self) -> bool {
        users_list_wf(self.users_tokens@)
    }

    /// Some account of the run is the privileged one.
    pub open spec fn has_privileged_user(self) -> bool {
        has_privileged_in(self.users_tokens@)
    }

    /// A fresh seeder with nothing generated yet.
    pub fn new() -> (r: Initializer)
        ensures
            r.users_tokens@.len() == 0,
            r.tags@.len() == 0,
            r.articles@.len() == 0,
    {
        Initializer { users_tokens: Vec::new(), tags: Vec::new(), articles: Vec::new() }
    }

    /// Whether an account with this username was already registered in this
    /// run.
    fn contains_username(&self, name: &String) -> (r: bool)
        ensures
            r <==> exists|i: int|
                0 <= i < self.users_tokens@.len() && username_at(self.users_tokens@, i) == name@,
    {
        let n = self.users_tokens.len();
        let mut i: usize = 0;
        while i < n
            invariant
                n == self.users_tokens@.len(),
                i <= n,
                forall|j: int| 0 <= j < i ==> username_at(self.users_tokens@, j) != name@,
            decreases n - i,
        {
            if self.users_tokens[i].0.eq(name) {
                proof {
                    assert(username_at(self.users_tokens@, i as int) == name@);
                }
                return true;
            }
            i += 1;
        }
        false
    }

    /// The current token of the privileged account.
    fn privileged_token(&self) -> (r: String)
        requires
            self.has_privileged_user(),
        ensures
            exists|i: int|
                0 <= i < self.users_tokens@.len() && username_at(self.users_tokens@, i)
                    == "readyset"@ && r == self.users_tokens@[i].1.current_token,
    {
        let readyset = "readyset".to_owned();
        let n = self.users_tokens.len();
        let mut i: usize = 0;
        while i < n
            invariant
                n == self.users_tokens@.len(),
                i <= n,
                readyset@ == "readyset"@,
                self.has_privileged_user(),
                forall|j: int| 0 <= j < i ==> username_at(self.users_tokens@, j) != "readyset"@,
            decreases n - i,
        {
            if self.users_tokens[i].0.eq(&readyset) {
                proof {
                    assert(username_at(self.users_tokens@, i as int) == "readyset"@);
                }
                return self.users_tokens[i].1.current_token.clone();
            }
            i += 1;
        }
        proof {
            let w = choose|j: int|
                0 <= j < self.users_tokens@.len() && username_at(self.users_tokens@, j)
                    == "readyset"@;
            assert(username_at(self.users_tokens@, w) != "readyset"@);
        }
        vstd::pervasive::unreached()
    }

    /// Registers the privileged account, then up to `num_users` accounts
    /// with random usernames. An iteration whose fresh username collides
    /// with an already-registered one is skipped — no retry, so a collision
    /// simply yields fewer accounts. Aborts on the first failed
    /// registration, keeping the accounts registered so far.
    pub fn generate_users<C: HttpPost>(
        &mut self,
        client: &mut C,
        rs: &mut RandomSource,
        num_users: usize,
    ) -> (r: ReqResult<()>)
        requires
            old(self).users_tokens@.len() == 0,
        ensures
            final(self).tags == old(self).tags,
            final(self).articles == old(self).articles,
            final(self).users_tokens@.len() <= 1 + num_users,
            final(self).users_wf(),
            r is Ok ==> final(self).users_tokens@.len() >= 1,
            r is Err ==> r->Err_0 == ApiError::RequestFailed,
    {
        let current_token = match registration(client, "ready@set.io", "password", "readyset") {
            Ok(t) => t,
            Err(e) => {
                return Err(e);
            },
        };
        self.users_tokens.push(
            (
                "readyset".to_owned(),
                UserAuth {
                    email: "ready@set.io".to_owned(),
                    password: "password".to_owned(),
                    current_token,
                },
            ),
        );
        let mut k: usize = 0;
        while k < num_users
            invariant
                self.users_wf(),
                self.users_tokens@.len() >= 1,
                self.users_tokens@.len() <= 1 + k,
                self.tags == old(self).tags,
                self.articles == old(self).articles,
                k <= num_users,
            decreases num_users - k,
        {
            let name = random_string(rs, 8, 16);
            let mut email = name.clone();
            email.append("@mail.com");
            if !self.contains_username(&name) {
                let token = match registration(client, email.as_str(), "password", name.as_str()) {
                    Ok(t) => t,
                    Err(e) => {
                        return Err(e);
                    },
                };
                let ghost prev = self.users_tokens@;
                let ghost gname = name@;
                self.users_tokens.push(
                    (name, UserAuth { email, password: "password".to_owned(), current_token: token }),
                );
                proof {
                    let last = prev.len() as int;
                    assert(generated_user_wf(self.users_tokens@[last]));
                    assert(username_at(self.users_tokens@, last) == gname);
                    assert forall|i: int, j: int|
                        0 <= i < j < self.users_tokens@.len() implies username_at(
                        self.users_tokens@,
                        i,
                    ) != username_at(self.users_tokens@, j) by {
                        assert(username_at(self.users_tokens@, i) == username_at(prev, i));
                        if j < last {
                            assert(username_at(prev, i) != username_at(prev, j));
                        } else {
                            assert(username_at(prev, i) != gname);
                        }
                    }
                }
            }
            k += 1;
        }
        Ok(())
    }

    /// Generates `num_tags` random tag strings. Uniqueness is not enforced:
    /// a duplicate tag is allowed and simply becomes more likely to be
    /// picked later.
    pub fn generate_tags(&mut self, rs: &mut RandomSource, num_tags: usize) -> (r: ReqResult<()>)
        ensures
            r is Ok,
            final(self).users_tokens == old(self).users_tokens,
            final(self).articles == old(self).articles,
            final(self).tags@.len() == old(self).tags@.len() + num_tags,
            forall|i: int| 0 <= i < old(self).tags@.len() ==> final(self).tags@[i] == old(self).tags@[i],
            forall|i: int|
                old(self).tags@.len() <= i < final(self).tags@.len() ==> tag_wf(
                    #[trigger] final(self).tags@[i],
                ),
    {
        let mut k: usize = 0;
        while k < num_tags
            invariant
                self.users_tokens == old(self).users_tokens,
                self.articles == old(self).articles,
                self.tags@.len() == old(self).tags@.len() + k,
                k <= num_tags,
                forall|i: int| 0 <= i < old(self).tags@.len() ==> self.tags@[i] == old(self).tags@[i],
                forall|i: int|
                    old(self).tags@.len() <= i < self.tags@.len() ==> tag_wf(
                        #[trigger] self.tags@[i],
                    ),
            decreases num_tags - k,
        {
            let tag = random_string(rs, 5, 10);
            self.tags.push(tag);
            k += 1;
        }
        Ok(())
    }

    /// Three tags for one article, drawn with replacement from the run's
    /// tag list by popularity; the same tag may appear twice.
    fn pick_tags(&self, d: &zipf::ZipfDistribution, rs: &mut RandomSource) -> (r: Vec<String>)
        requires
            zipf_item_count(*d) == self.tags@.len(),
            self.tags@.len() >= 1,
        ensures
            r@.len() == 3,
            forall|k: int| 0 <= k < 3 ==> from_list(#[trigger] r@[k], self.tags@),
    {
        let mut v: Vec<String> = Vec::new();
        let mut k: usize = 0;
        while k < 3
            invariant
                zipf_item_count(*d) == self.tags@.len(),
                v@.len() == k,
                k <= 3,
                forall|m: int| 0 <= m < k ==> from_list(#[trigger] v@[m], self.tags@),
            decreases 3 - k,
        {
            let i = zipf_index(d, rs);
            v.push(self.tags[i].clone());
            proof {
                assert(v@[k as int] == self.tags@[i as int]);
                assert(from_list(v@[k as int], self.tags@));
            }
            k += 1;
        }
        v
    }

    /// The token of one author for one article, drawn from the run's users
    /// by popularity.
    fn pick_author_token(&self, d: &zipf::ZipfDistribution, rs: &mut RandomSource) -> (r: String)
        requires
            zipf_item_count(*d) == self.users_tokens@.len(),
            self.users_tokens@.len() >= 1,
        ensures
            exists|j: int|
                0 <= j < self.users_tokens@.len() && r == self.users_tokens@[j].1.current_token,
    {
        let i = zipf_index(d, rs);
        self.users_tokens[i].1.current_token.clone()
    }

    /// Creates the run's articles: each gets random title, description and
    /// body, exactly three tags and one author, drawn by popularity —
    /// earliest-generated tags and users dominate. Needs prior tag and user
    /// generation, since each popularity distribution is built over the size
    /// of its list: with an empty tag or user list the stage fails without
    /// making a request. Aborts on the first failed creation, keeping the
    /// slugs created so far.
    pub fn generate_articles<C: HttpPost>(&mut self, client: &mut C, rs: &mut RandomSource) -> (r:
        ReqResult<()>)
        ensures
            final(self).users_tokens == old(self).users_tokens,
            final(self).tags == old(self).tags,
            forall|i: int|
                0 <= i < old(self).articles@.len() ==> final(self).articles@[i] == old(
                    self,
                ).articles@[i],
            final(self).articles@.len() <= old(self).articles@.len() + NUM_ARTICLES,
            r is Ok ==> final(self).articles@.len() == old(self).articles@.len() + NUM_ARTICLES,
            r is Err ==> r->Err_0 == ApiError::RequestFailed,
            old(self).tags@.len() == 0 || old(self).users_tokens@.len() == 0 ==> r is Err
                && final(self).articles == old(self).articles,
    {
        if self.tags.len() == 0 || self.users_tokens.len() == 0 {
            return Err(ApiError::RequestFailed);
        }
        let tag_dist = zipf_new(self.tags.len());
        let auth_dist = zipf_new(self.users_tokens.len());
        let mut k: usize = 0;
        while k < NUM_ARTICLES
            invariant
                self.users_tokens == old(self).users_tokens,
                self.tags == old(self).tags,
                self.tags@.len() >= 1,
                self.users_tokens@.len() >= 1,
                zipf_item_count(tag_dist) == self.tags@.len(),
                zipf_item_count(auth_dist) == self.users_tokens@.len(),
                forall|i: int|
                    0 <= i < old(self).articles@.len() ==> self.articles@[i] == old(
                        self,
                    ).articles@[i],
                self.articles@.len() == old(self).articles@.len() + k,
                k <= NUM_ARTICLES,
            decreases NUM_ARTICLES - k,
        {
            let title = random_string(rs, 8, 16);
            let description = random_string(rs, 8, 16);
            let body = random_string(rs, 8, 16);
            let tag_list = self.pick_tags(&tag_dist, rs);
            let author_token = self.pick_author_token(&auth_dist, rs);
            let slug = match create_article(
                client,
                author_token.as_str(),
                title.as_str(),
                description.as_str(),
                body.as_str(),
                &tag_list,
            ) {
                Ok(s) => s,
                Err(e) => {
                    return Err(e);
                },
            };
            self.articles.push(slug);
            k += 1;
        }
        Ok(())
    }

    /// The privileged account favorites every article created in this run,
    /// in creation order. Aborts on the first failure; with no articles it
    /// makes no request and succeeds.
    pub fn favorite_articles<C: HttpPost>(&self, client: &mut C) -> (r: ReqResult<()>)
        requires
            self.has_privileged_user(),
        ensures
            self.articles@.len() == 0 ==> r is Ok,
            r is Err ==> r->Err_0 == ApiError::RequestFailed,
    {
        let token = self.privileged_token();
        let n = self.articles.len();
        let mut i: usize = 0;
        while i < n
            invariant
                n == self.articles@.len(),
            decreases n - i,
        {
            match favorite_article(client, token.as_str(), self.articles[i].as_str()) {
                Ok(()) => {},
                Err(e) => {
                    return Err(e);
                },
            }
            i += 1;
        }
        Ok(())
    }

    /// The privileged account follows every other account generated in this
    /// run, in generation order. Aborts on the first failure; with nobody to
    /// follow — every account the privileged one — it makes no request and
    /// succeeds.
    pub fn follow_users<C: HttpPost>(&self, client: &mut C) -> (r: ReqResult<()>)
        requires
            self.has_privileged_user(),
        ensures
            (forall|i: int|
                0 <= i < self.users_tokens@.len() ==> username_at(self.users_tokens@, i)
                    == "readyset"@) ==> r is Ok,
            r is Err ==> r->Err_0 == ApiError::RequestFailed,
    {
        let token = self.privileged_token();
        let readyset = "readyset".to_owned();
        let n = self.users_tokens.len();
        let mut i: usize = 0;
        while i < n
            invariant
                n == self.users_tokens@.len(),
                readyset@ == "readyset"@,
            decreases n - i,
        {
            if !self.users_tokens[i].0.eq(&readyset) {
                proof {
                    assert(username_at(self.users_tokens@, i as int) != "readyset"@);
                }
                match follow_user(client, token.as_str(), self.users_tokens[i].0.as_str()) {
                    Ok(()) => {},
                    Err(e) => {
                        return Err(e);
                    },
                }
            }
            i += 1;
        }
        Ok(())
    }

    /// Runs the five seeding stages strictly in sequence — users, tags,
    /// articles, favorites, follows — aborting the whole run on the first
    /// failure from any stage, with no rollback of what earlier stages
    /// already created remotely.
    pub fn seed<C: HttpPost>(&mut self, client: &mut C, rs: &mut RandomSource) -> (r: ReqResult<()>)
        requires
            old(self).users_tokens@.len() == 0,
        ensures
            final(self).users_wf(),
            final(self).users_tokens@.len() <= 1 + NUM_USERS,
            final(self).tags@.len() <= old(self).tags@.len() + NUM_TAGS,
            final(self).articles@.len() <= old(self).articles@.len() + NUM_ARTICLES,
            forall|i: int|
                old(self).tags@.len() <= i < final(self).tags@.len() ==> tag_wf(
                    #[trigger] final(self).tags@[i],
                ),
            forall|i: int|
                0 <= i < old(self).articles@.len() ==> final(self).articles@[i] == old(
                    self,
                ).articles@[i],
            r is Ok ==> {
                &&& final(self).users_tokens@.len() >= 1
                &&& final(self).tags@.len() == old(self).tags@.len() + NUM_TAGS
                &&& final(self).articles@.len() == old(self).articles@.len() + NUM_ARTICLES
            },
            r is Err ==> r->Err_0 == ApiError::RequestFailed,
    {
        match self.generate_users(client, rs, NUM_USERS) {
            Ok(()) => {},
            Err(e) => {
                return Err(e);
            },
        }
        match self.generate_tags(rs, NUM_TAGS) {
            Ok(()) => {},
            Err(e) => {
                return Err(e);
            },
        }
        match self.generate_articles(client, rs) {
            Ok(()) => {},
            Err(e) => {
                return Err(e);
            },
        }
        proof {
            assert(self.username(0) == "readyset"@);
            assert(self.has_privileged_user());
        }
        match self.favorite_articles(client) {
            Ok(()) => {},
            Err(e) => {
                return Err(e);
            },
        }
        match self.follow_users(client) {
            Ok(()) => {},
            Err(e) => {
                return Err(e);
            },
        }
        Ok(())
    }
}

} // verus!
