use vstd::prelude::*;

use crate::dispatch::Failure;

verus! {

/// The channel table that a list of (name, URL) pairs describes: each name
/// maps to the URL of its last pair.
pub open spec fn channels_of(entries: Seq<(String, String)>) -> Map<Seq<char>, Seq<char>>
    decreases entries.len(),
{
    if entries.len() == 0 {
        Map::empty()
    } else {
        let last = entries.last();
        channels_of(entries.drop_last()).insert(last.0@, last.1@)
    }
}

/// The URL that `name` resolves to in `channels`, matched exactly, with no
/// trimming or case folding.
pub open spec fn resolution(channels: Map<Seq<char>, Seq<char>>, name: Seq<char>) -> Option<Seq<char>> {
    if channels.contains_key(name) {
        Some(channels[name])
    } else {
        None
    }
}

/// The configuration: the mapping from channel names to endpoint URLs.
pub struct Config {
    entries: Vec<(String, String)>,
}

impl View for Config {
    type V = Map<Seq<char>, Seq<char>>;

    closed spec fn view(&self) -> Map<Seq<char>, Seq<char>> {
        channels_of(self.entries@)
    }
}

/// Where no pair after index `i` has the name `k`, the table maps `k` as the
/// pairs up to `i` do.
proof fn lemma_suffix_without_name(entries: Seq<(String, String)>, i: int, k: Seq<char>)
    requires
        0 <= i <= entries.len(),
        forall|j: int| i <= j < entries.len() ==> (#[trigger] entries[j]).0@ != k,
    ensures
        channels_of(entries).contains_key(k) == channels_of(entries.subrange(0, i)).contains_key(k),
        channels_of(entries).contains_key(k) ==> channels_of(entries)[k] == channels_of(
            entries.subrange(0, i),
        )[k],
    decreases entries.len() - i,
{
    if i < entries.len() {
        let shorter = entries.drop_last();
        assert(entries.last() == entries[entries.len() - 1]);
        lemma_suffix_without_name(shorter, i, k);
        assert(shorter.subrange(0, i) =~= entries.subrange(0, i));
    } else {
        assert(entries.subrange(0, i) =~= entries);
    }
}

/// Loading a configuration with one channel and resolving that channel
/// gives back exactly the configured URL.
pub proof fn lemma_single_channel_round_trip(name: String, url: String)
    ensures
        resolution(channels_of(seq![(name, url)]), name@) == Some(url@),
{
    lemma_last_pair_wins(seq![(name, url)], 0);
}

/// A table whose last pair with name `k` sits at index `i` maps `k` to that
/// pair's URL.
pub proof fn lemma_last_pair_wins(entries: Seq<(String, String)>, i: int)
    requires
        0 <= i < entries.len(),
        forall|j: int| i < j < entries.len() ==> (#[trigger] entries[j]).0@ != entries[i].0@,
    ensures
        channels_of(entries).contains_key(entries[i].0@),
        channels_of(entries)[entries[i].0@] == entries[i].1@,
        resolution(channels_of(entries), entries[i].0@) == Some(entries[i].1@),
{
    let k = entries[i].0@;
    lemma_suffix_without_name(entries, i + 1, k);
    let prefix = entries.subrange(0, i + 1);
    assert(prefix.drop_last() =~= entries.subrange(0, i));
    assert(prefix.last() == entries[i]);
}

impl Config {
    /// A configuration with no channels.
    pub fn new() -> (c: Config)
        ensures
            c@ == Map::<Seq<char>, Seq<char>>::empty(),
    {
        Config { entries: Vec::new() }
    }

    /// Binds `name` to `url`, replacing any URL that `name` had.
    pub fn insert(&mut self, name: String, url: String)
        ensures
            final(self)@ == old(self)@.insert(name@, url@),
    {
        let ghost before = self.entries@;
        self.entries.push((name, url));
        assert(self.entries@.drop_last() =~= before);
    }

    /// The configuration that a list of (name, URL) pairs describes; where a
    /// name occurs twice, its last pair wins.
    pub fn from_entries(entries: Vec<(String, String)>) -> (c: Config)
        ensures
            c@ == channels_of(entries@),
    {
        Config { entries }
    }

    /// The URL bound to `name`, if any.
    pub fn get(&self, name: &String) -> (r: Option<String>)
        ensures
            match r {
                Some(url) => resolution(self@, name@) == Some(url@),
                None => resolution(self@, name@) is None,
            },
    {
        let n = self.entries.len();
        let mut i: usize = n;
        while i > 0
            invariant
                i <= n,
                n == self.entries@.len(),
                forall|j: int| i <= j < n ==> (#[trigger] self.entries@[j]).0@ != name@,
            decreases i,
        {
            let entry = &self.entries[i - 1];
            if entry.0 == *name {
                proof {
                    lemma_last_pair_wins(self.entries@, i - 1);
                }
                return Some(entry.1.clone());
            }
            i = i - 1;
        }
        proof {
            lemma_suffix_without_name(self.entries@, 0, name@);
            assert(self.entries@.subrange(0, 0) =~= Seq::<(String, String)>::empty());
        }
        None
    }
}

/// Resolves a channel name to its configured URL; a name that the
/// configuration lacks is a `ChannelNotFound` failure naming the channel.
pub fn lookup_url(config: &Config, channel: String) -> (r: Result<String, Failure>)
    ensures
        config@.contains_key(channel@) ==> (r matches Ok(url) && url@ == config@[channel@]),
        !config@.contains_key(channel@) ==> r == Err::<String, Failure>(
            Failure::ChannelNotFound { channel },
        ),
{
    match config.get(&channel) {
        Some(url) => Ok(url),
        None => Err(Failure::ChannelNotFound { channel }),
    }
}

} // verus!
