//! What the provider says of a realm, and where it says it.

use vstd::prelude::*;
use vstd::string::*;

verus! {

/// A realm's description, as the provider publishes it.  Either member may
/// be missing from a well-formed answer.
#[derive(Debug)]
pub struct RealmInfo {
    pub realm: Option<String>,
    pub public_key: Option<String>,
}

/// The mathematical value of a [`RealmInfo`].
pub struct RealmInfoView {
    pub realm: Option<Seq<char>>,
    pub public_key: Option<Seq<char>>,
}

impl View for RealmInfo {
    type V = RealmInfoView;

    open spec fn view(&self) -> RealmInfoView {
        RealmInfoView {
            realm: match self.realm {
                Some(realm) => Some(realm@),
                None => None,
            },
            public_key: match self.public_key {
                Some(key) => Some(key@),
                None => None,
            },
        }
    }
}

/// The address under which a provider at `url` describes `realm`.
pub open spec fn info_url_of(url: Seq<char>, realm: Seq<char>) -> Seq<char> {
    url + "/realms/"@ + realm
}

/// The address under which a provider at `url` describes `realm`.
pub fn info_url(url: &str, realm: &str) -> (r: String)
    ensures
        r@ == info_url_of(url@, realm@),
{
    String::from_str(url).concat("/realms/").concat(realm)
}

} // verus!
