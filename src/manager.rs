use vstd::prelude::*;
use crate::channel::str_equal;

verus! {

/// What an upstream client is built from: device, account and session token.
#[derive(Clone, Debug)]
pub struct Account {
    pub device_name: String,
    pub email: String,
    pub aas_token: String,
}

/// A default client plus, for some packages, a client per release track.
pub struct GpapiManager {
    default_client: Account,
    special_clients: Vec<(String, String, Account)>,
    special_view: Ghost<Map<(Seq<char>, Seq<char>), Account>>,
}

/// The key of a special client: package and track.
pub open spec fn entry_key(e: (String, String, Account)) -> (Seq<char>, Seq<char>) {
    (e.0@, e.1@)
}

impl GpapiManager {
    pub closed spec fn default_client(&self) -> Account {
        self.default_client
    }

    /// The special clients, keyed by package and track.
    pub closed spec fn special(&self) -> Map<(Seq<char>, Seq<char>), Account> {
        self.special_view@
    }

    pub closed spec fn wf(&self) -> bool {
        let es = self.special_clients@;
        &&& forall|i: int, j: int|
            0 <= i < j < es.len() ==> entry_key(#[trigger] es[i]) != entry_key(#[trigger] es[j])
        &&& forall|i: int|
            0 <= i < es.len() ==> self.special_view@.contains_key(entry_key(#[trigger] es[i]))
                && self.special_view@[entry_key(es[i])] == es[i].2
        &&& forall|k: (Seq<char>, Seq<char>)|
            #[trigger] self.special_view@.contains_key(k) ==> exists|i: int|
                0 <= i < es.len() && entry_key(#[trigger] es[i]) == k
    }

    pub fn new(device_name: &str, email: &str, aas_token: &str) -> (r: Self)
        ensures
            r.wf(),
            r.default_client().device_name@ == device_name@,
            r.default_client().email@ == email@,
            r.default_client().aas_token@ == aas_token@,
            r.special() == Map::<(Seq<char>, Seq<char>), Account>::empty(),
    {
        let default_client = Account {
            device_name: device_name.to_owned(),
            email: email.to_owned(),
            aas_token: aas_token.to_owned(),
        };
        GpapiManager { default_client, special_clients: Vec::new(), special_view: Ghost(Map::empty()) }
    }

    /// Index of the special client for `package_name` and `track`, if any.
    fn find(&self, package_name: &str, track: &str) -> (r: Option<usize>)
        requires
            self.wf(),
        ensures
            r matches Some(i) ==> i < self.special_clients@.len() && entry_key(
                self.special_clients@[i as int],
            ) == (package_name@, track@),
            r is None ==> !self.special().contains_key((package_name@, track@)),
    {
        let mut i: usize = 0;
        while i < self.special_clients.len()
            invariant
                self.wf(),
                i <= self.special_clients@.len(),
                forall|j: int|
                    0 <= j < i ==> entry_key(#[trigger] self.special_clients@[j]) != (
                        package_name@,
                        track@,
                    ),
            decreases self.special_clients@.len() - i,
        {
            let e = &self.special_clients[i];
            if str_equal(e.0.as_str(), package_name) && str_equal(e.1.as_str(), track) {
                return Some(i);
            }
            i = i + 1;
        }
        None
    }

    /// Registers `client` for `package_name` on `track`, replacing any client
    /// registered there before.
    pub fn add_special_client(&mut self, package_name: &str, track: &str, client: Account)
        requires
            old(self).wf(),
        ensures
            final(self).wf(),
            final(self).default_client() == old(self).default_client(),
            final(self).special() == old(self).special().insert((package_name@, track@), client),
    {
        let key = Ghost((package_name@, track@));
        let ghost old_es = self.special_clients@;
        let ghost old_view = self.special_view@;
        let found = self.find(package_name, track);
        let ghost at: int;
        match found {
            Some(i) => {
                let p = self.special_clients[i].0.clone();
                let t = self.special_clients[i].1.clone();
                self.special_clients.set(i, (p, t, client));
                proof {
                    at = i as int;
                }
            },
            None => {
                self.special_clients.push((package_name.to_owned(), track.to_owned(), client));
                proof {
                    at = old_es.len() as int;
                }
            },
        }
        self.special_view = Ghost(old_view.insert(key@, client));
        proof {
            let es = self.special_clients@;
            assert(entry_key(es[at]) == key@);
            assert forall|j: int| 0 <= j < es.len() && j != at implies #[trigger] es[j] == old_es[j] by {}
            assert forall|k: (Seq<char>, Seq<char>)|
                #[trigger] self.special_view@.contains_key(k) implies exists|i: int|
                    0 <= i < es.len() && entry_key(#[trigger] es[i]) == k by {
                if k == key@ {
                    assert(entry_key(es[at]) == k);
                } else {
                    let j = choose|j: int|
                        0 <= j < old_es.len() && entry_key(#[trigger] old_es[j]) == k;
                    assert(es[j] == old_es[j]);
                }
            }
        }
    }

    /// The client that serves `package_name` on `track`: the default client
    /// when no track is named, else the special client registered for that
    /// package and track, or an error naming both.
    pub fn client_for(&self, package_name: &str, track: Option<&str>) -> (r: Result<&Account, String>)
        requires
            self.wf(),
        ensures
            track is None ==> (r matches Ok(a) && *a == self.default_client()),
            track is Some && self.special().contains_key((package_name@, track->Some_0@)) ==> (r matches Ok(
                a,
            ) && *a == self.special()[(package_name@, track->Some_0@)]),
            track is Some && !self.special().contains_key((package_name@, track->Some_0@)) ==> (r matches Err(
                m,
            ) && m@ == "Track '"@ + track->Some_0@ + "' not available for '"@ + package_name@ + "'"@),
    {
        match track {
            None => Ok(&self.default_client),
            Some(t) => match self.find(package_name, t) {
                Some(i) => Ok(&self.special_clients[i].2),
                None => {
                    proof {
                        reveal_strlit("Track '");
                        reveal_strlit("' not available for '");
                        reveal_strlit("'");
                    }
                    let m = String::from_str("Track '").concat(t);
                    let m = m.concat("' not available for '").concat(package_name);
                    Err(m.concat("'"))
                },
            },
        }
    }
}

} // verus!
