use vstd::prelude::*;

use crate::model::config::InboundConfig;
use crate::model::stream::{StreamSecurity, TransportNetwork};
use crate::text::{cat, decimal, ends_with, is_suffix, lit, lowercase, strip_suffix, to_lowercase, u64_to_decimal};

verus! {

/// Keeps one JSON file per inbound in a directory; a disabled inbound's file
/// carries the extra extension `.disabled`.
pub struct ConfigManager {
    config_dir: String,
}

/// An inbound read from the configuration directory.
pub struct ConfigEntry {
    pub config: InboundConfig,
    pub filename: String,
    pub enabled: bool,
    /// When the file was last modified, in nanoseconds since the Unix epoch.
    pub modified: u128,
}

/// The short name of a transport in file names.
pub open spec fn net_file_part(n: TransportNetwork) -> Seq<char> {
    match n {
        TransportNetwork::Tcp => "tcp"@,
        TransportNetwork::Ws => "ws"@,
        TransportNetwork::Grpc => "grpc"@,
        TransportNetwork::HttpUpgrade => "hup"@,
        TransportNetwork::Quic => "quic"@,
        TransportNetwork::Kcp => "kcp"@,
        TransportNetwork::DomainSocket => "ds"@,
    }
}

/// The short name of a security layer in file names.
pub open spec fn security_file_part(s: StreamSecurity) -> Seq<char> {
    match s {
        StreamSecurity::NoSecurity => "none"@,
        StreamSecurity::Tls => "tls"@,
        StreamSecurity::Reality => "reality"@,
    }
}

/// `{protocol}+{network}+{security}+{port}.json`, the protocol in lowercase.
pub open spec fn config_file_name(inb: InboundConfig) -> Seq<char> {
    lowercase(inb.protocol.display()) + "+"@ + net_file_part(inb.stream_settings.network) + "+"@
        + security_file_part(inb.stream_settings.security) + "+"@ + decimal(inb.port as nat)
        + ".json"@
}

/// Whether a file of the directory holds an inbound, and if so whether it
/// is enabled: `.json` files are enabled inbounds, `.json.disabled` files
/// disabled ones, other files are not inbounds.
pub open spec fn file_kind(name: Seq<char>) -> Option<bool> {
    if is_suffix(".json"@, name) {
        Some(true)
    } else if is_suffix(".json.disabled"@, name) {
        Some(false)
    } else {
        None
    }
}

/// The name a file gets when its inbound is switched on or off.
pub open spec fn toggled_name(name: Seq<char>) -> Seq<char> {
    if is_suffix(".disabled"@, name) {
        name.subrange(0, name.len() - ".disabled"@.len())
    } else {
        name + ".disabled"@
    }
}

/// Where `e` goes among `r`: before the first entry modified later than it.
pub open spec fn first_after(r: Seq<ConfigEntry>, m: u128, i: int) -> int
    decreases r.len() - i,
{
    if i >= r.len() {
        r.len() as int
    } else if r[i].modified > m {
        i
    } else {
        first_after(r, m, i + 1)
    }
}

/// `e` inserted after every entry modified no later than it.
pub open spec fn insert_by_modified(r: Seq<ConfigEntry>, e: ConfigEntry) -> Seq<ConfigEntry> {
    r.insert(first_after(r, e.modified, 0), e)
}

/// The entries sorted by modification time, oldest first, entries modified
/// at the same time kept in their order (what a stable sort by key gives).
pub open spec fn sort_by_modified(s: Seq<ConfigEntry>) -> Seq<ConfigEntry>
    decreases s.len(),
{
    if s.len() == 0 {
        Seq::empty()
    } else {
        insert_by_modified(sort_by_modified(s.drop_last()), s.last())
    }
}

impl ConfigManager {
    /// The directory the manager keeps its files in.
    pub closed spec fn dir(&self) -> Seq<char> {
        self.config_dir@
    }

    /// A manager for the given directory (the caller creates it).
    pub fn new(config_dir: &str) -> (r: Self)
        ensures
            r.dir() == config_dir@,
    {
        ConfigManager { config_dir: lit(config_dir) }
    }

    pub fn config_dir(&self) -> (r: &str)
        ensures
            r@ == self.dir(),
    {
        self.config_dir.as_str()
    }

    /// The file name of an inbound (see `config_file_name`).
    pub fn make_filename(inbound: &InboundConfig) -> (r: String)
        ensures
            r@ == config_file_name(*inbound),
    {
        let proto = to_lowercase(inbound.protocol.to_string().as_str());
        let net = match inbound.stream_settings.network {
            TransportNetwork::Tcp => "tcp",
            TransportNetwork::Ws => "ws",
            TransportNetwork::Grpc => "grpc",
            TransportNetwork::HttpUpgrade => "hup",
            TransportNetwork::Quic => "quic",
            TransportNetwork::Kcp => "kcp",
            TransportNetwork::DomainSocket => "ds",
        };
        let sec = match inbound.stream_settings.security {
            StreamSecurity::NoSecurity => "none",
            StreamSecurity::Tls => "tls",
            StreamSecurity::Reality => "reality",
        };
        let mut s = proto;
        s.append("+");
        s.append(net);
        s.append("+");
        s.append(sec);
        s.append("+");
        let port = u64_to_decimal(inbound.port as u64);
        s.append(port.as_str());
        s.append(".json");
        s
    }

    /// Whether a directory entry holds an inbound, and whether it is enabled
    /// (see `file_kind`).
    pub fn classify_filename(name: &str) -> (r: Option<bool>)
        ensures
            r == file_kind(name@),
    {
        if ends_with(name, ".json") {
            Some(true)
        } else if ends_with(name, ".json.disabled") {
            Some(false)
        } else {
            None
        }
    }

    /// The file an inbound is saved to, and the file of the other state that
    /// is removed first: `name` and `name.disabled` for an enabled inbound,
    /// the other way round for a disabled one.
    pub fn save_file_names(inbound: &InboundConfig, enabled: bool) -> (r: (String, String))
        ensures
            enabled ==> r.0@ == config_file_name(*inbound) && r.1@ == config_file_name(*inbound)
                + ".disabled"@,
            !enabled ==> r.0@ == config_file_name(*inbound) + ".disabled"@ && r.1@
                == config_file_name(*inbound),
    {
        let base = Self::make_filename(inbound);
        if enabled {
            let alt = cat(base.as_str(), ".disabled");
            (base, alt)
        } else {
            let name = cat(base.as_str(), ".disabled");
            (name, base)
        }
    }

    /// The new name of a file whose inbound is switched on or off (see
    /// `toggled_name`).
    pub fn toggled_filename(filename: &str) -> (r: String)
        ensures
            r@ == toggled_name(filename@),
    {
        proof {
            reveal_strlit(".disabled");
        }
        match strip_suffix(filename, ".disabled") {
            Some(stem) => stem,
            None => cat(filename, ".disabled"),
        }
    }

    /// Sorts entries by modification time, oldest first, keeping entries
    /// modified at the same time in their order.
    pub fn sort_entries(entries: Vec<ConfigEntry>) -> (r: Vec<ConfigEntry>)
        ensures
            r@ == sort_by_modified(entries@),
    {
        let ghost orig = entries@;
        let mut rest = entries;
        let mut sorted: Vec<ConfigEntry> = Vec::new();
        let n = rest.len();
        let mut i: usize = 0;
        while i < n
            invariant
                n == orig.len(),
                i <= n,
                rest@ == orig.subrange(i as int, n as int),
                sorted@ == sort_by_modified(orig.take(i as int)),
            decreases n - i,
        {
            let e = rest.remove(0);
            assert(e == orig[i as int]);
            assert(rest@ =~= orig.subrange(i + 1, n as int));
            let m = e.modified;
            let mut p: usize = 0;
            while p < sorted.len() && sorted[p].modified <= m
                invariant
                    p <= sorted@.len(),
                    first_after(sorted@, m, 0) == first_after(sorted@, m, p as int),
                decreases sorted@.len() - p,
            {
                p += 1;
            }
            assert(first_after(sorted@, m, 0) == p);
            sorted.insert(p, e);
            assert(orig.take(i + 1).drop_last() =~= orig.take(i as int));
            assert(orig.take(i + 1).last() == e);
            i += 1;
        }
        assert(orig.take(n as int) =~= orig);
        sorted
    }
}

/// Switching a file twice gives back its name, unless the name ends in
/// `.disabled` twice (the first switch then removes only one).
pub proof fn lemma_toggle_twice(name: Seq<char>)
    requires
        !is_suffix(".disabled.disabled"@, name),
    ensures
        toggled_name(toggled_name(name)) == name,
{
    reveal_strlit(".disabled");
    reveal_strlit(".disabled.disabled");
    let d = ".disabled"@;
    let dd = ".disabled.disabled"@;
    assert(dd =~= d + d);
    if is_suffix(d, name) {
        let stem = name.subrange(0, name.len() - d.len());
        assert(stem + d =~= name);
        if is_suffix(d, stem) {
            assert(name.subrange(name.len() - dd.len(), name.len() as int) =~= stem.subrange(stem.len() - d.len(), stem.len() as int)
                + name.subrange(name.len() - d.len(), name.len() as int));
            assert(false);
        }
        assert((stem + d).subrange(0, (stem + d).len() - d.len()) =~= stem);
    } else {
        let t = name + d;
        assert(t.subrange(t.len() - d.len(), t.len() as int) =~= d);
        assert(t.subrange(0, t.len() - d.len()) =~= name);
    }
}

/// Switching an inbound's file switches it between enabled and disabled.
pub proof fn lemma_toggle_flips_kind(name: Seq<char>, enabled: bool)
    requires
        file_kind(name) == Some(enabled),
    ensures
        file_kind(toggled_name(name)) == Some(!enabled),
{
    reveal_strlit(".disabled");
    reveal_strlit(".json");
    reveal_strlit(".json.disabled");
    let d = ".disabled"@;
    let j = ".json"@;
    let jd = ".json.disabled"@;
    assert(jd =~= j + d);
    if enabled {
        assert(is_suffix(j, name));
        let n = name.len();
        assert(name.subrange(n - 5, n as int)[4] == name[n - 1]);
        assert(name[n - 1] == 'n');
        assert(!is_suffix(d, name)) by {
            if is_suffix(d, name) {
                assert(name.subrange(n - 9, n as int)[8] == name[n - 1]);
            }
        }
        let t = name + d;
        assert(t.subrange(t.len() - jd.len(), t.len() as int) =~= name.subrange(n - 5, n as int) + d);
        assert(!is_suffix(j, t)) by {
            if is_suffix(j, t) {
                assert(t.subrange(t.len() - 5, t.len() as int)[4] == t[t.len() - 1]);
            }
        }
    } else {
        assert(!is_suffix(j, name));
        assert(is_suffix(jd, name));
        let n = name.len();
        assert(name.subrange(n - 9, n as int) =~= name.subrange(n - 14, n as int).subrange(5, 14));
        assert(jd.subrange(5, 14) =~= d);
        assert(is_suffix(d, name));
        let t = name.subrange(0, n - d.len());
        assert(t.subrange(t.len() - j.len(), t.len() as int) =~= name.subrange(n - 14, n as int).subrange(0, 5));
        assert(jd.subrange(0, 5) =~= j);
    }
}

/// Entries in order of modification time, oldest first.
pub open spec fn modified_sorted(s: Seq<ConfigEntry>) -> bool {
    forall|i: int, j: int| 0 <= i < j < s.len() ==> s[i].modified <= s[j].modified
}

proof fn lemma_first_after(r: Seq<ConfigEntry>, m: u128, i: int)
    requires
        0 <= i <= r.len(),
    ensures
        i <= first_after(r, m, i) <= r.len(),
        forall|j: int| i <= j < first_after(r, m, i) ==> r[j].modified <= m,
        first_after(r, m, i) < r.len() ==> r[first_after(r, m, i)].modified > m,
    decreases r.len() - i,
{
    if i < r.len() && r[i].modified <= m {
        lemma_first_after(r, m, i + 1);
    }
}

proof fn lemma_insert_sorted(r: Seq<ConfigEntry>, e: ConfigEntry)
    requires
        modified_sorted(r),
    ensures
        modified_sorted(insert_by_modified(r, e)),
        insert_by_modified(r, e).to_multiset() == r.to_multiset().insert(e),
{
    let k = first_after(r, e.modified, 0);
    lemma_first_after(r, e.modified, 0);
    let t = r.insert(k, e);
    assert forall|i: int, j: int| 0 <= i < j < t.len() implies t[i].modified <= t[j].modified by {
        if j > k {
            assert(t[j] == r[j - 1]);
            if i < k {
                assert(t[i] == r[i]);
            } else if i == k {
                assert(r[k].modified <= r[j - 1].modified);
            } else {
                assert(t[i] == r[i - 1]);
            }
        } else if j == k {
            assert(t[i] == r[i]);
        } else {
            assert(t[i] == r[i] && t[j] == r[j]);
        }
    }
    vstd::seq_lib::to_multiset_insert(r, k, e);
}

/// Sorting by modification time puts the entries in order, oldest first,
/// and neither loses nor adds an entry.
pub proof fn lemma_sorted_permutation(s: Seq<ConfigEntry>)
    ensures
        modified_sorted(sort_by_modified(s)),
        sort_by_modified(s).to_multiset() == s.to_multiset(),
    decreases s.len(),
{
    if s.len() > 0 {
        lemma_sorted_permutation(s.drop_last());
        lemma_insert_sorted(sort_by_modified(s.drop_last()), s.last());
        vstd::seq_lib::to_multiset_build(s.drop_last(), s.last());
        assert(s.drop_last().push(s.last()) =~= s);
        assert(sort_by_modified(s).to_multiset() =~= s.to_multiset());
    } else {
        assert(s =~= Seq::<ConfigEntry>::empty());
    }
}

} // verus!
