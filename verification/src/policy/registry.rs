//! The registry that maps condition names to evaluator clients.

use vstd::prelude::*;
use crate::text::{owned, same_text};

verus! {

/// The evaluator clients that a condition can be checked by.
#[derive(Clone, Copy, Debug, PartialEq, Eq, Structural)]
pub enum ClientKind {
    /// Scores content for safety; the remote side compares score and threshold.
    ContentSafety,
    /// Looks for banned terms; the remote side reports the terms it found.
    KeywordFilter,
}

/// What a condition name resolves to.
#[derive(Clone, Copy, Debug, PartialEq, Eq, Structural)]
pub enum Resolution {
    Client(ClientKind),
    /// No client is registered under the name. Such a condition never passes.
    Unknown,
}

/// One registration: a condition name and the client that checks it.
pub struct RegistryEntry {
    pub name: String,
    pub client: ClientKind,
}

/// The registrations, as pairs of name and client, in the order they were made.
pub type RegistryView = Seq<(Seq<char>, ClientKind)>;

/// The client registered under `name`: that of the first entry with the name.
pub open spec fn resolution(entries: RegistryView, name: Seq<char>) -> Resolution
    decreases entries.len(),
{
    if entries.len() == 0 {
        Resolution::Unknown
    } else if entries[0].0 == name {
        Resolution::Client(entries[0].1)
    } else {
        resolution(entries.drop_first(), name)
    }
}

/// The registry that every process starts with.
pub open spec fn standard_entries() -> RegistryView {
    seq![
        ("content_analysis"@, ClientKind::ContentSafety),
        ("keywords"@, ClientKind::KeywordFilter),
    ]
}

/// Maps condition names to evaluator clients. Filled once at startup and
/// only read afterwards.
pub struct ConditionRegistry {
    entries: Vec<RegistryEntry>,
}

impl View for ConditionRegistry {
    type V = RegistryView;

    closed spec fn view(&self) -> RegistryView {
        Seq::new(self.entries@.len(), |i: int| (self.entries@[i].name@, self.entries@[i].client))
    }
}

impl ConditionRegistry {
    /// A registry with no entry: every name is unknown to it.
    pub fn new() -> (r: ConditionRegistry)
        ensures
            r@ == Seq::<(Seq<char>, ClientKind)>::empty(),
    {
        let r = ConditionRegistry { entries: Vec::new() };
        assert(r@ =~= Seq::<(Seq<char>, ClientKind)>::empty());
        r
    }

    /// The fixed mapping: `content_analysis` is checked by the content-safety
    /// client and `keywords` by the keyword-filter client.
    pub fn standard() -> (r: ConditionRegistry)
        ensures
            r@ == standard_entries(),
    {
        let mut entries: Vec<RegistryEntry> = Vec::new();
        entries.push(
            RegistryEntry { name: owned("content_analysis"), client: ClientKind::ContentSafety },
        );
        entries.push(RegistryEntry { name: owned("keywords"), client: ClientKind::KeywordFilter });
        let r = ConditionRegistry { entries };
        assert(r@ =~= standard_entries());
        r
    }

    /// Registers `client` under `name`, unless the name is taken already.
    /// Returns whether the entry was added.
    pub fn register(&mut self, name: &str, client: ClientKind) -> (added: bool)
        ensures
            added == (resolution(old(self)@, name@) is Unknown),
            added ==> final(self)@ == old(self)@.push((name@, client)),
            !added ==> final(self)@ == old(self)@,
    {
        match self.resolve(name) {
            Resolution::Unknown => {
                self.entries.push(RegistryEntry { name: owned(name), client });
                assert(self@ =~= old(self)@.push((name@, client)));
                true
            },
            Resolution::Client(_) => false,
        }
    }

    /// Looks a condition name up. An unknown name is no error: it resolves
    /// to `Unknown`.
    pub fn resolve(&self, name: &str) -> (r: Resolution)
        ensures
            r == resolution(self@, name@),
    {
        let ghost all = self@;
        let mut i: usize = 0;
        assert(all.skip(0) =~= all);
        while i < self.entries.len()
            invariant
                i <= self.entries.len(),
                all == self@,
                all.len() == self.entries.len(),
                resolution(all, name@) == resolution(all.skip(i as int), name@),
            decreases self.entries.len() - i,
        {
            let ghost rest = all.skip(i as int);
            assert(rest[0] == (self.entries[i as int].name@, self.entries[i as int].client));
            if same_text(self.entries[i].name.as_str(), name) {
                return Resolution::Client(self.entries[i].client);
            }
            assert(rest.drop_first() =~= all.skip(i as int + 1));
            i += 1;
        }
        assert(all.skip(i as int).len() == 0);
        Resolution::Unknown
    }
}

/// A registered name keeps its client when more names are registered.
pub proof fn lemma_registration_is_stable(
    entries: RegistryView,
    name: Seq<char>,
    other: Seq<char>,
    client: ClientKind,
)
    requires
        resolution(entries, name) is Client,
    ensures
        resolution(entries.push((other, client)), name) == resolution(entries, name),
    decreases entries.len(),
{
    let grown = entries.push((other, client));
    assert(grown[0] == entries[0]);
    if entries[0].0 != name {
        assert(grown.drop_first() =~= entries.drop_first().push((other, client)));
        lemma_registration_is_stable(entries.drop_first(), name, other, client);
    }
}

/// In the standard registry exactly two names are known.
pub proof fn lemma_standard_registry(name: Seq<char>)
    ensures
        resolution(standard_entries(), name) == if name == "content_analysis"@ {
            Resolution::Client(ClientKind::ContentSafety)
        } else if name == "keywords"@ {
            Resolution::Client(ClientKind::KeywordFilter)
        } else {
            Resolution::Unknown
        },
{
    let s = standard_entries();
    reveal_with_fuel(resolution, 3);
    assert(s.drop_first() =~= seq![("keywords"@, ClientKind::KeywordFilter)]);
    assert(s.drop_first().drop_first() =~= Seq::<(Seq<char>, ClientKind)>::empty());
    reveal_strlit("content_analysis");
    reveal_strlit("keywords");
    assert("content_analysis"@.len() == 16);
    assert("keywords"@.len() == 8);
}

} // verus!
