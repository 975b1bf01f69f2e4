use vstd::prelude::*;
use crate::model::{Author, Client};

verus! {

/// The address book as a map from client name to client; a later client
/// replaces an earlier one of the same name.
pub open spec fn client_map(list: Seq<Client>) -> Map<Seq<char>, Client>
    decreases list.len(),
{
    if list.len() == 0 {
        Map::empty()
    } else {
        client_map(list.drop_last()).insert(list.last().name@, list.last())
    }
}

/// No two clients of the list share a name.
pub open spec fn names_unique(list: Seq<Client>) -> bool {
    forall|i: int, j: int|
        0 <= i < j < list.len() ==> (#[trigger] list[i]).name@ != (#[trigger] list[j]).name@
}

proof fn lemma_client_map_of_unique(s: Seq<Client>)
    requires
        names_unique(s),
    ensures
        forall|i: int|
            0 <= i < s.len() ==> #[trigger] client_map(s).contains_key(s[i].name@) && client_map(
                s,
            )[s[i].name@] == s[i],
        forall|k: Seq<char>|
            #[trigger] client_map(s).contains_key(k) ==> exists|i: int|
                0 <= i < s.len() && (#[trigger] s[i]).name@ == k,
    decreases s.len(),
{
    if s.len() > 0 {
        let p = s.drop_last();
        assert(names_unique(p)) by {
            assert forall|i: int, j: int| 0 <= i < j < p.len() implies (#[trigger] p[i]).name@
                != (#[trigger] p[j]).name@ by {
                assert(p[i] == s[i] && p[j] == s[j]);
            }
        }
        lemma_client_map_of_unique(p);
        assert forall|i: int| 0 <= i < s.len() implies #[trigger] client_map(s).contains_key(
            s[i].name@,
        ) && client_map(s)[s[i].name@] == s[i] by {
            if i < s.len() - 1 {
                assert(p[i] == s[i]);
                assert(client_map(p).contains_key(p[i].name@));
                assert(s[i].name@ != s[s.len() - 1].name@);
            }
        }
        assert forall|k: Seq<char>| #[trigger] client_map(s).contains_key(k) implies exists|i: int|
            0 <= i < s.len() && (#[trigger] s[i]).name@ == k by {
            if k == s.last().name@ {
                assert(s[s.len() - 1].name@ == k);
            } else {
                assert(client_map(p).contains_key(k));
                let i = choose|i: int| 0 <= i < p.len() && (#[trigger] p[i]).name@ == k;
                assert(s[i] == p[i]);
            }
        }
    }
}

/// The user's settings and address book.
#[derive(Debug, Clone)]
pub struct Config {
    pub author: Option<Author>,
    pub tex_output_path: String,
    pub pdf_output_path: String,
    /// the address book, at most one client per name
    pub clients: Vec<Client>,
    pub last_facture: Option<String>,
    pub last_dispense: Option<String>,
}

impl Config {
    /// Adds a client to the address book, in place of any of the same name.
    pub fn remember_client(&mut self, client: Client)
        requires
            names_unique(old(self).clients@),
        ensures
            names_unique(final(self).clients@),
            client_map(final(self).clients@) == client_map(old(self).clients@).insert(
                client.name@,
                client,
            ),
            final(self).author == old(self).author,
            final(self).tex_output_path == old(self).tex_output_path,
            final(self).pdf_output_path == old(self).pdf_output_path,
            final(self).last_facture == old(self).last_facture,
            final(self).last_dispense == old(self).last_dispense,
    {
        let ghost s = self.clients@;
        let mut j: usize = 0;
        while j < self.clients.len()
            invariant
                self.clients@ == s,
                s == old(self).clients@,
                names_unique(s),
                j <= s.len(),
                self.author == old(self).author,
                self.tex_output_path == old(self).tex_output_path,
                self.pdf_output_path == old(self).pdf_output_path,
                self.last_facture == old(self).last_facture,
                self.last_dispense == old(self).last_dispense,
                forall|k: int| 0 <= k < j ==> (#[trigger] s[k]).name@ != client.name@,
            decreases s.len() - j,
        {
            if crate::latex::str_eq(self.clients[j].name.as_str(), client.name.as_str()) {
                self.clients.set(j, client);
                proof {
                    let t = s.update(j as int, client);
                    assert(self.clients@ == t);
                    assert(names_unique(t)) by {
                        assert forall|a: int, b: int| 0 <= a < b < t.len() implies (#[trigger] t[a]).name@
                            != (#[trigger] t[b]).name@ by {
                            if a != j && b != j {
                                assert(t[a] == s[a] && t[b] == s[b]);
                            } else if a == j {
                                assert(t[b] == s[b]);
                            } else {
                                assert(t[a] == s[a]);
                            }
                        }
                    }
                    lemma_client_map_of_unique(s);
                    lemma_client_map_of_unique(t);
                    let m = client_map(s).insert(client.name@, client);
                    assert forall|k: Seq<char>| #[trigger] client_map(t).contains_key(k) <==> m.contains_key(k) by {
                        if client_map(t).contains_key(k) {
                            let i = choose|i: int| 0 <= i < t.len() && (#[trigger] t[i]).name@ == k;
                            if i != j {
                                assert(t[i] == s[i]);
                            }
                        }
                        if client_map(s).contains_key(k) {
                            let i = choose|i: int| 0 <= i < s.len() && (#[trigger] s[i]).name@ == k;
                            if i != j {
                                assert(t[i] == s[i]);
                            }
                        }
                        if k == client.name@ {
                            assert(t[j as int].name@ == k);
                        }
                    }
                    assert forall|k: Seq<char>| #[trigger] client_map(t).contains_key(k) implies client_map(t)[k] == m[k] by {
                        let i = choose|i: int| 0 <= i < t.len() && (#[trigger] t[i]).name@ == k;
                        if i != j {
                            assert(t[i] == s[i]);
                            assert(s[i].name@ != s[j as int].name@);
                        }
                    }
                    assert(client_map(t) =~= m);
                }
                return;
            }
            j = j + 1;
        }
        let ghost name = client.name@;
        self.clients.push(client);
        proof {
            let t = self.clients@;
            assert(t.drop_last() =~= s);
            assert(names_unique(t)) by {
                assert forall|a: int, b: int| 0 <= a < b < t.len() implies (#[trigger] t[a]).name@
                    != (#[trigger] t[b]).name@ by {
                    assert(t[a] == s[a]);
                    if b < s.len() {
                        assert(t[b] == s[b]);
                    }
                }
            }
        }
    }

    /// Replaces the address book by the clients of the list, one per name,
    /// a later client taking the place of an earlier one of the same name.
    pub fn set_clients(&mut self, client_list: Vec<Client>)
        ensures
            names_unique(final(self).clients@),
            client_map(final(self).clients@) == client_map(client_list@),
            final(self).author == old(self).author,
            final(self).tex_output_path == old(self).tex_output_path,
            final(self).pdf_output_path == old(self).pdf_output_path,
            final(self).last_facture == old(self).last_facture,
            final(self).last_dispense == old(self).last_dispense,
    {
        let ghost all = client_list@;
        let mut rest = client_list;
        let n = rest.len();
        self.clients = Vec::new();
        let mut i: usize = 0;
        while rest.len() > 0
            invariant
                all.len() == n,
                i + rest@.len() == all.len(),
                rest@ == all.subrange(i as int, all.len() as int),
                names_unique(self.clients@),
                client_map(self.clients@) == client_map(all.subrange(0, i as int)),
                self.author == old(self).author,
                self.tex_output_path == old(self).tex_output_path,
                self.pdf_output_path == old(self).pdf_output_path,
                self.last_facture == old(self).last_facture,
                self.last_dispense == old(self).last_dispense,
            decreases rest@.len(),
        {
            let client = rest.remove(0);
            assert(client == all[i as int]);
            assert(all.subrange(0, i + 1).drop_last() =~= all.subrange(0, i as int));
            self.remember_client(client);
            assert(rest@ =~= all.subrange(i + 1, all.len() as int));
            i = i + 1;
        }
        assert(all.subrange(0, i as int) =~= all);
    }

    /// Forgets the last exemption document when it no longer exists.
    pub fn drop_missing_dispense(&mut self, exists: bool)
        ensures
            final(self).last_dispense == (if exists {
                old(self).last_dispense
            } else {
                None
            }),
            final(self).author == old(self).author,
            final(self).clients == old(self).clients,
            final(self).tex_output_path == old(self).tex_output_path,
            final(self).pdf_output_path == old(self).pdf_output_path,
            final(self).last_facture == old(self).last_facture,
    {
        if !exists {
            self.last_dispense = None;
        }
    }
}

} // verus!
