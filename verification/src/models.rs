//! The tokens that the identity providers hand out, and the player profile
//! that ends a login.

use vstd::prelude::*;
use uuid::Uuid;
use crate::time::Timestamp;

verus! {

/// The identifier of an account, `uuid::Uuid`. The library only hands such
/// identifiers on and never looks into one.
#[verifier::external_type_specification]
#[verifier::external_body]
pub struct ExUuid(uuid::Uuid);

/// What a text field holds, where it holds one.
pub open spec fn text_of(field: Option<String>) -> Option<Seq<char>> {
    match field {
        Some(text) => Some(text@),
        None => None,
    }
}

/// Copies an optional text.
pub fn clone_text(field: &Option<String>) -> (copy: Option<String>)
    ensures
        copy == *field,
{
    match field {
        Some(text) => Some(text.clone()),
        None => None,
    }
}

/// A token and the instant from which it is no longer accepted.
#[derive(Debug, PartialEq, Eq)]
pub struct TokenWithExpiry {
    pub token: String,
    pub expiry: Timestamp,
}

/// The mathematical value of a [`TokenWithExpiry`].
pub struct TokenWithExpiryView {
    pub token: Seq<char>,
    pub expiry: Timestamp,
}

impl View for TokenWithExpiry {
    type V = TokenWithExpiryView;

    open spec fn view(&self) -> TokenWithExpiryView {
        TokenWithExpiryView { token: self.token@, expiry: self.expiry }
    }
}

impl TokenWithExpiryView {
    /// The token is still accepted at `now`: `now` lies strictly before the expiry.
    pub open spec fn is_live(self, now: Timestamp) -> bool {
        now.is_before(self.expiry)
    }
}

impl Clone for TokenWithExpiry {
    fn clone(&self) -> (copy: TokenWithExpiry)
        ensures
            copy == *self,
    {
        TokenWithExpiry { token: self.token.clone(), expiry: self.expiry }
    }
}

impl TokenWithExpiry {
    pub fn new(token: String, expiry: Timestamp) -> (made: TokenWithExpiry)
        ensures
            made.token == token,
            made.expiry == expiry,
    {
        TokenWithExpiry { token, expiry }
    }

    /// Whether the token is still accepted at `now`.
    pub fn is_live(&self, now: &Timestamp) -> (live: bool)
        ensures
            live == self@.is_live(*now),
    {
        now.before(&self.expiry)
    }
}

/// An Xbox secure token for the game service, with the userhash that the
/// last hop of the chain needs beside it.
#[derive(Debug, PartialEq, Eq)]
pub struct XstsToken {
    pub token: String,
    pub expiry: Timestamp,
    pub userhash: String,
}

/// The mathematical value of an [`XstsToken`].
pub struct XstsTokenView {
    pub token: Seq<char>,
    pub expiry: Timestamp,
    pub userhash: Seq<char>,
}

impl View for XstsToken {
    type V = XstsTokenView;

    open spec fn view(&self) -> XstsTokenView {
        XstsTokenView { token: self.token@, expiry: self.expiry, userhash: self.userhash@ }
    }
}

impl XstsTokenView {
    /// The token is still accepted at `now`: `now` lies strictly before the expiry.
    pub open spec fn is_live(self, now: Timestamp) -> bool {
        now.is_before(self.expiry)
    }
}

impl Clone for XstsToken {
    fn clone(&self) -> (copy: XstsToken)
        ensures
            copy == *self,
    {
        XstsToken {
            token: self.token.clone(),
            expiry: self.expiry,
            userhash: self.userhash.clone(),
        }
    }
}

impl XstsToken {
    pub fn new(token: String, expiry: Timestamp, userhash: String) -> (made: XstsToken)
        ensures
            made.token == token,
            made.expiry == expiry,
            made.userhash == userhash,
    {
        XstsToken { token, expiry, userhash }
    }

    /// Whether the token is still accepted at `now`.
    pub fn is_live(&self, now: &Timestamp) -> (live: bool)
        ensures
            live == self@.is_live(*now),
    {
        now.before(&self.expiry)
    }
}

/// The access token of the game service, as the last stage hands it on.
#[derive(Debug, PartialEq, Eq)]
pub struct MinecraftAccessToken(pub String);

impl View for MinecraftAccessToken {
    type V = Seq<char>;

    open spec fn view(&self) -> Seq<char> {
        self.0@
    }
}

impl Clone for MinecraftAccessToken {
    fn clone(&self) -> (copy: MinecraftAccessToken)
        ensures
            copy == *self,
    {
        MinecraftAccessToken(self.0.clone())
    }
}

/// What an authorization or a refresh yields: a fresh Microsoft access token
/// and, where the provider gave one, the refresh token to keep.
#[derive(Debug, PartialEq, Eq)]
pub struct MsaTokens {
    pub access: TokenWithExpiry,
    pub refresh: Option<String>,
}

/// The mathematical value of [`MsaTokens`].
pub struct MsaTokensView {
    pub access: TokenWithExpiryView,
    pub refresh: Option<Seq<char>>,
}

impl View for MsaTokens {
    type V = MsaTokensView;

    open spec fn view(&self) -> MsaTokensView {
        MsaTokensView { access: self.access@, refresh: text_of(self.refresh) }
    }
}

/// Whether a skin of a profile is the one in use.
#[derive(Clone, Copy, Debug, PartialEq, Eq, Structural)]
pub enum SkinState {
    Active,
    Inactive,
}

/// One skin of a player profile.
#[derive(Debug, PartialEq, Eq)]
pub struct MinecraftProfileSkin {
    pub state: SkinState,
    pub url: String,
}

impl Clone for MinecraftProfileSkin {
    fn clone(&self) -> (copy: MinecraftProfileSkin)
        ensures
            copy == *self,
    {
        MinecraftProfileSkin { state: self.state, url: self.url.clone() }
    }
}

/// The player profile that an access token is bound to.
#[derive(Debug, PartialEq, Eq)]
pub struct MinecraftProfileResponse {
    pub id: Uuid,
    pub name: String,
    pub skins: Vec<MinecraftProfileSkin>,
}

/// `at` is the place of the first active skin among `skins`.
pub open spec fn is_first_active(skins: Seq<MinecraftProfileSkin>, at: int) -> bool {
    &&& 0 <= at < skins.len()
    &&& skins[at].state == SkinState::Active
    &&& forall|j: int| 0 <= j < at ==> skins[j].state != SkinState::Active
}

impl MinecraftProfileResponse {
    /// The skin in use: the first of the profile's skins that is active.
    pub fn active_skin(&self) -> (found: Option<&MinecraftProfileSkin>)
        ensures
            match found {
                Some(skin) => exists|at: int|
                    #[trigger] is_first_active(self.skins@, at) && *skin == self.skins@[at],
                None => forall|j: int|
                    0 <= j < self.skins@.len() ==> self.skins@[j].state != SkinState::Active,
            },
    {
        let mut at: usize = 0;
        while at < self.skins.len()
            invariant
                at <= self.skins@.len(),
                forall|j: int| 0 <= j < at ==> self.skins@[j].state != SkinState::Active,
            decreases self.skins@.len() - at,
        {
            if self.skins[at].state == SkinState::Active {
                assert(is_first_active(self.skins@, at as int));
                return Some(&self.skins[at]);
            }
            at += 1;
        }
        None
    }
}

} // verus!
