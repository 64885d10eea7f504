//! What a worker is configured with: the broker's address, the table of
//! resources, the access-gateway credentials and the instance name.

use vstd::prelude::*;
use vstd::string::*;
use crate::text::same_text;

verus! {

/// One resource: a name and the URL that it stands for.
#[derive(Debug, Clone)]
pub struct Resource {
    pub name: String,
    pub url: String,
}

/// The resources of a configuration, by name. No name occurs twice.
#[derive(Debug)]
pub struct ResourceTable {
    entries: Vec<Resource>,
}

impl View for ResourceTable {
    type V = Map<Seq<char>, Seq<char>>;

    /// The table as a map from name to URL.
    closed spec fn view(&self) -> Map<Seq<char>, Seq<char>> {
        Map::new(
            |name: Seq<char>| self.has(name),
            |name: Seq<char>| self.entries@[self.place(name)].url@,
        )
    }
}

impl Clone for ResourceTable {
    /// A table with the same resources.
    fn clone(&self) -> (copy: ResourceTable)
        ensures
            copy@ == self@,
    {
        proof {
            use_type_invariant(self);
        }
        let mut entries: Vec<Resource> = Vec::new();
        let mut i: usize = 0;
        while i < self.entries.len()
            invariant
                i <= self.entries@.len(),
                entries@.len() == i,
                forall|j: int|
                    0 <= j < i ==> #[trigger] entries@[j].name@ == self.entries@[j].name@
                        && entries@[j].url@ == self.entries@[j].url@,
            decreases self.entries@.len() - i,
        {
            entries.push(
                Resource { name: self.entries[i].name.clone(), url: self.entries[i].url.clone() },
            );
            i += 1;
        }
        let copy = ResourceTable { entries };
        proof {
            assert forall|name: Seq<char>| copy.has(name) == self.has(name) by {
                if copy.has(name) {
                    let j = choose|j: int| copy.at(j, name);
                    assert(self.at(j, name));
                }
                if self.has(name) {
                    let j = choose|j: int| self.at(j, name);
                    assert(copy.at(j, name));
                }
            }
            assert forall|name: Seq<char>| copy.has(name) implies copy.entries@[copy.place(
                name,
            )].url@ == self.entries@[self.place(name)].url@ by {
                let a = copy.place(name);
                let b = self.place(name);
                assert(copy.at(a, name));
                assert(self.at(b, name));
                assert(self.at(a, name));
            }
            assert(copy@ =~= self@);
        }
        copy
    }
}

impl ResourceTable {
    #[verifier::type_invariant]
    spec fn names_differ(&self) -> bool {
        forall|i: int, j: int|
            0 <= i < j < self.entries@.len() ==> self.entries@[i].name@ != self.entries@[j].name@
    }

    spec fn at(&self, i: int, name: Seq<char>) -> bool {
        0 <= i < self.entries@.len() && self.entries@[i].name@ == name
    }

    spec fn has(&self, name: Seq<char>) -> bool {
        exists|i: int| self.at(i, name)
    }

    spec fn place(&self, name: Seq<char>) -> int {
        choose|i: int| self.at(i, name)
    }

    /// A table without resources.
    pub fn new() -> (table: ResourceTable)
        ensures
            table@ == Map::<Seq<char>, Seq<char>>::empty(),
    {
        let table = ResourceTable { entries: Vec::new() };
        assert(table@ =~= Map::<Seq<char>, Seq<char>>::empty());
        table
    }

    fn position(&self, name: &str) -> (found: Option<usize>)
        ensures
            match found {
                Some(i) => self.at(i as int, name@),
                None => !self.has(name@),
            },
    {
        let mut i: usize = 0;
        while i < self.entries.len()
            invariant
                i <= self.entries@.len(),
                forall|j: int| 0 <= j < i ==> !self.at(j, name@),
            decreases self.entries@.len() - i,
        {
            if same_text(self.entries[i].name.as_str(), name) {
                return Some(i);
            }
            i += 1;
        }
        None
    }

    /// Puts a resource under a name, in place of the one that the name stood
    /// for, and returns the URL that it stood for before.
    pub fn insert(&mut self, name: String, url: String) -> (previous: Option<String>)
        ensures
            final(self)@ == old(self)@.insert(name@, url@),
            match previous {
                Some(before) => old(self)@.contains_key(name@) && old(self)@[name@] == before@,
                None => !old(self)@.contains_key(name@),
            },
    {
        proof {
            use_type_invariant(&*self);
        }
        match self.position(name.as_str()) {
            Some(i) => {
                let before = self.entries[i].url.clone();
                let ghost key = name@;
                let mut entries = Vec::new();
                core::mem::swap(&mut self.entries, &mut entries);
                entries.set(i, Resource { name, url });
                self.entries = entries;
                proof {
                    assert(old(self).at(i as int, key));
                    assert(old(self).place(key) == i);
                    assert forall|k: Seq<char>| self.has(k) == old(self).has(k) by {
                        if self.has(k) {
                            let j = choose|j: int| self.at(j, k);
                            assert(old(self).at(j, k));
                        }
                        if old(self).has(k) {
                            let j = choose|j: int| old(self).at(j, k);
                            assert(self.at(j, k));
                        }
                    }
                    assert forall|k: Seq<char>| self.has(k) implies self.place(k) == old(
                        self,
                    ).place(k) by {
                        let a = self.place(k);
                        let b = old(self).place(k);
                        assert(self.at(a, k));
                        assert(old(self).at(b, k));
                        assert(old(self).at(a, k));
                    }
                    assert(self.at(i as int, key));
                    assert(self@ =~= old(self)@.insert(key, url@));
                }
                Some(before)
            },
            None => {
                let ghost key = name@;
                let ghost last = self.entries@.len() as int;
                let mut entries = Vec::new();
                core::mem::swap(&mut self.entries, &mut entries);
                entries.push(Resource { name, url });
                proof {
                    assert forall|i: int, j: int| 0 <= i < j < entries@.len() implies entries@[i].name@
                        != entries@[j].name@ by {
                        if j == last {
                            assert(!old(self).at(i, key));
                        }
                    }
                }
                self.entries = entries;
                proof {
                    assert(self.at(last, key));
                    assert forall|k: Seq<char>| self.has(k) == (old(self).has(k) || k == key) by {
                        if self.has(k) {
                            let j = choose|j: int| self.at(j, k);
                            if j < last {
                                assert(old(self).at(j, k));
                            }
                        }
                        if old(self).has(k) {
                            let j = choose|j: int| old(self).at(j, k);
                            assert(self.at(j, k));
                        }
                    }
                    assert forall|k: Seq<char>| old(self).has(k) implies self.place(k) == old(
                        self,
                    ).place(k) by {
                        let a = self.place(k);
                        let b = old(self).place(k);
                        assert(old(self).at(b, k));
                        assert(self.at(b, k));
                        assert(self.at(a, k));
                    }
                    assert(self.place(key) == last);
                    assert(self@ =~= old(self)@.insert(key, url@));
                }
                None
            },
        }
    }

    /// Every resource of the table, each name once.
    pub fn list(&self) -> (resources: Vec<Resource>)
        ensures
            forall|i: int|
                0 <= i < resources@.len() ==> self@.contains_key(#[trigger] resources@[i].name@)
                    && self@[resources@[i].name@] == resources@[i].url@,
            forall|name: Seq<char>| #[trigger]
                self@.contains_key(name) ==> exists|i: int|
                    0 <= i < resources@.len() && #[trigger] resources@[i].name@ == name,
            forall|i: int, j: int|
                0 <= i < j < resources@.len() ==> resources@[i].name@ != resources@[j].name@,
    {
        proof {
            use_type_invariant(self);
        }
        let mut resources: Vec<Resource> = Vec::new();
        let mut i: usize = 0;
        while i < self.entries.len()
            invariant
                i <= self.entries@.len(),
                resources@.len() == i,
                forall|j: int|
                    0 <= j < i ==> #[trigger] resources@[j].name@ == self.entries@[j].name@
                        && resources@[j].url@ == self.entries@[j].url@,
            decreases self.entries@.len() - i,
        {
            resources.push(
                Resource { name: self.entries[i].name.clone(), url: self.entries[i].url.clone() },
            );
            i += 1;
        }
        proof {
            assert forall|k: int| 0 <= k < resources@.len() implies self@.contains_key(
                #[trigger] resources@[k].name@,
            ) && self@[resources@[k].name@] == resources@[k].url@ by {
                let name = resources@[k].name@;
                assert(self.at(k, name));
                assert(self.at(self.place(name), name));
            }
            assert forall|name: Seq<char>| #[trigger] self@.contains_key(name) implies exists|
                k: int,
            |
                0 <= k < resources@.len() && #[trigger] resources@[k].name@ == name by {
                let k = self.place(name);
                assert(self.at(k, name));
                assert(resources@[k].name@ == name);
            }
        }
        resources
    }

    /// The URL that a name stands for, if the table has the name.
    pub fn get(&self, name: &str) -> (found: Option<&String>)
        ensures
            match found {
                Some(url) => self@.contains_key(name@) && self@[name@] == url@,
                None => !self@.contains_key(name@),
            },
    {
        proof {
            use_type_invariant(self);
        }
        match self.position(name) {
            Some(i) => {
                proof {
                    assert(self.at(i as int, name@));
                    assert(self.at(self.place(name@), name@));
                }
                Some(&self.entries[i].url)
            },
            None => None,
        }
    }
}

/// The instance name that stands for a name yet to be looked up.
pub open spec fn lookup_marker() -> Seq<char> {
    "ec2"@
}

/// The path under the metadata service that answers with the instance name.
pub open spec fn lookup_path() -> Seq<char> {
    "/latest/meta-data/instance-id"@
}

/// The empty text, for a credential that the configuration does not give.
pub fn default_empty_string() -> (text: String)
    ensures
        text@ == Seq::<char>::empty(),
{
    String::new()
}

/// The access gateway is off unless the configuration turns it on.
pub fn default_false() -> (flag: bool)
    ensures
        !flag,
{
    false
}

/// Where the metadata service is found unless the configuration says
/// otherwise.
pub fn ec2_meta_domain() -> (domain: String)
    ensures
        domain@ == "http://169.254.169.254"@,
{
    String::from_str("http://169.254.169.254")
}

/// A header of the connection handshake.
#[derive(Debug, Clone, PartialEq, Eq)]
pub struct Header {
    pub name: String,
    pub value: String,
}

/// Headers as pairs of character sequences.
pub open spec fn header_views(headers: Seq<Header>) -> Seq<(Seq<char>, Seq<char>)> {
    headers.map_values(|h: Header| (h.name@, h.value@))
}

/// The headers that the handshake carries: the two credentials where the
/// access gateway is on, none where it is off.
pub open spec fn access_headers(enabled: bool, key: Seq<char>, secret: Seq<char>) -> Seq<
    (Seq<char>, Seq<char>),
> {
    if enabled {
        seq![("CF-Access-Client-Id"@, key), ("CF-Access-Client-Secret"@, secret)]
    } else {
        Seq::empty()
    }
}

/// The name that a metadata reply gives: the body of a reply with status
/// 200, and none for any other status.
pub open spec fn name_in_reply(status: u16, body: Seq<char>) -> Option<Seq<char>> {
    if status == 200 {
        Some(body)
    } else {
        None
    }
}

/// Reads the instance name out of the metadata service's reply.
pub fn instance_name_from_reply(status: u16, body: String) -> (name: Option<String>)
    ensures
        match name {
            Some(text) => name_in_reply(status, body@) == Some(text@),
            None => name_in_reply(status, body@) is None,
        },
{
    if status == 200 {
        Some(body)
    } else {
        None
    }
}

/// The configuration of one connection attempt.
#[derive(Debug)]
pub struct Config {
    pub instance: String,
    pub target: String,
    pub resources: ResourceTable,
    pub cf_access_enabled: bool,
    pub cf_access_key: String,
    pub cf_access_secret: String,
    pub ec2_meta_domain: String,
}

impl Clone for Config {
    /// A configuration with the same parts.
    fn clone(&self) -> (copy: Config)
        ensures
            copy.instance@ == self.instance@,
            copy.target@ == self.target@,
            copy.resources@ == self.resources@,
            copy.cf_access_enabled == self.cf_access_enabled,
            copy.cf_access_key@ == self.cf_access_key@,
            copy.cf_access_secret@ == self.cf_access_secret@,
            copy.ec2_meta_domain@ == self.ec2_meta_domain@,
    {
        Config {
            instance: self.instance.clone(),
            target: self.target.clone(),
            resources: self.resources.clone(),
            cf_access_enabled: self.cf_access_enabled,
            cf_access_key: self.cf_access_key.clone(),
            cf_access_secret: self.cf_access_secret.clone(),
            ec2_meta_domain: self.ec2_meta_domain.clone(),
        }
    }
}

impl Config {
    /// A configuration of the given parts. The instance name is kept as it
    /// is given: `ec2` stays until the caller has looked the name up.
    pub fn new(
        instance: String,
        target: String,
        resources: ResourceTable,
        cf_access_enabled: bool,
        cf_access_key: String,
        cf_access_secret: String,
        ec2_meta_domain: String,
    ) -> (config: Config)
        ensures
            config.instance@ == instance@,
            config.target@ == target@,
            config.resources@ == resources@,
            config.cf_access_enabled == cf_access_enabled,
            config.cf_access_key@ == cf_access_key@,
            config.cf_access_secret@ == cf_access_secret@,
            config.ec2_meta_domain@ == ec2_meta_domain@,
    {
        let mut config = Config {
            instance: String::new(),
            target,
            resources,
            cf_access_enabled,
            cf_access_key,
            cf_access_secret,
            ec2_meta_domain,
        };
        config.set_instance_name(instance);
        config
    }

    /// The instance name.
    pub fn get_instance_name(&self) -> (name: &String)
        ensures
            name@ == self.instance@,
    {
        &self.instance
    }

    /// Replaces the instance name and leaves the rest as it is.
    pub fn set_instance_name(&mut self, value: String)
        ensures
            final(self).instance@ == value@,
            final(self).ec2_meta_domain == old(self).ec2_meta_domain,
            final(self).target == old(self).target,
            final(self).resources == old(self).resources,
            final(self).cf_access_enabled == old(self).cf_access_enabled,
            final(self).cf_access_key == old(self).cf_access_key,
            final(self).cf_access_secret == old(self).cf_access_secret,
    {
        self.instance = value;
    }

    /// Whether the instance name is still the marker that asks for a lookup.
    pub fn needs_instance_lookup(&self) -> (needed: bool)
        ensures
            needed == (self.instance@ == lookup_marker()),
    {
        same_text(self.instance.as_str(), "ec2")
    }

    /// The URL that answers with the instance name: the metadata service's
    /// address, then the lookup path.
    pub fn instance_lookup_url(&self) -> (url: String)
        ensures
            url@ == self.ec2_meta_domain@ + lookup_path(),
    {
        let mut url = self.ec2_meta_domain.clone();
        url.append("/latest/meta-data/instance-id");
        url
    }

    /// The headers to attach to the handshake request.
    pub fn handshake_headers(&self) -> (headers: Vec<Header>)
        ensures
            header_views(headers@) == access_headers(
                self.cf_access_enabled,
                self.cf_access_key@,
                self.cf_access_secret@,
            ),
    {
        let mut headers: Vec<Header> = Vec::new();
        if self.cf_access_enabled {
            headers.push(
                Header {
                    name: String::from_str("CF-Access-Client-Id"),
                    value: self.cf_access_key.clone(),
                },
            );
            headers.push(
                Header {
                    name: String::from_str("CF-Access-Client-Secret"),
                    value: self.cf_access_secret.clone(),
                },
            );
        }
        assert(header_views(headers@) =~= access_headers(
            self.cf_access_enabled,
            self.cf_access_key@,
            self.cf_access_secret@,
        ));
        headers
    }
}

} // verus!
