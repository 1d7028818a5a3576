use vstd::prelude::*;
use vstd::hash_map::StringHashMap;
use vstd::string::*;

verus! {

/// A point in time, in seconds since the Unix epoch, held as the IEEE-754 bit pattern
/// of the `f64` that the clock gave. The library carries it and never computes on it.
#[derive(Clone, Copy, Debug, PartialEq, Eq, Structural)]
pub struct Timestamp {
    pub bits: u64,
}

/// What a miner of one level costs and how many tokens per hour it adds.
#[derive(Clone, Copy, Debug, PartialEq, Eq, Structural)]
pub struct MinerConfig {
    pub buy_price: u64,
    pub tokens_add: u32,
}

/// How many tokens a vault of one level holds.
#[derive(Clone, Copy, Debug, PartialEq, Eq, Structural)]
pub struct VaultConfig {
    pub volume: u32,
}

/// The game's level tables, keyed by the level written in decimal ("1", "2", ...).
pub struct Config {
    vault: StringHashMap<VaultConfig>,
    miner: StringHashMap<MinerConfig>,
    buy_miner: StringHashMap<u64>,
}

pub struct ConfigView {
    pub vault: Map<Seq<char>, VaultConfig>,
    pub miner: Map<Seq<char>, MinerConfig>,
    pub buy_miner: Map<Seq<char>, u64>,
}

impl View for Config {
    type V = ConfigView;

    closed spec fn view(&self) -> ConfigView {
        ConfigView { vault: self.vault@, miner: self.miner@, buy_miner: self.buy_miner@ }
    }
}

/// The entry of a table under `key`, if any.
pub open spec fn table_get<V>(table: Map<Seq<char>, V>, key: Seq<char>) -> Option<V> {
    if table.contains_key(key) {
        Some(table[key])
    } else {
        None
    }
}

impl Config {
    /// Tables with no level in them.
    pub fn new() -> (c: Config)
        ensures
            c@.vault == Map::<Seq<char>, VaultConfig>::empty(),
            c@.miner == Map::<Seq<char>, MinerConfig>::empty(),
            c@.buy_miner == Map::<Seq<char>, u64>::empty(),
    {
        Config { vault: StringHashMap::new(), miner: StringHashMap::new(), buy_miner: StringHashMap::new() }
    }

    /// Sets the vault of level `level`.
    pub fn add_vault_level(&mut self, level: String, vault: VaultConfig)
        ensures
            final(self)@.vault == old(self)@.vault.insert(level@, vault),
            final(self)@.miner == old(self)@.miner,
            final(self)@.buy_miner == old(self)@.buy_miner,
    {
        self.vault.insert(level, vault);
    }

    /// Sets the miner of level `level`.
    pub fn add_miner_level(&mut self, level: String, miner: MinerConfig)
        ensures
            final(self)@.miner == old(self)@.miner.insert(level@, miner),
            final(self)@.vault == old(self)@.vault,
            final(self)@.buy_miner == old(self)@.buy_miner,
    {
        self.miner.insert(level, miner);
    }

    /// Sets an entry of the miner price list.
    pub fn add_miner_price(&mut self, key: String, price: u64)
        ensures
            final(self)@.buy_miner == old(self)@.buy_miner.insert(key@, price),
            final(self)@.vault == old(self)@.vault,
            final(self)@.miner == old(self)@.miner,
    {
        self.buy_miner.insert(key, price);
    }

    /// The miner of level `level`, if the table has one.
    pub fn miner_level(&self, level: &str) -> (m: Option<MinerConfig>)
        ensures
            m == table_get(self@.miner, level@),
    {
        match self.miner.get(level) {
            Some(m) => Some(*m),
            None => None,
        }
    }

    /// The vault of level `level`, if the table has one.
    pub fn vault_level(&self, level: &str) -> (v: Option<VaultConfig>)
        ensures
            v == table_get(self@.vault, level@),
    {
        match self.vault.get(level) {
            Some(v) => Some(*v),
            None => None,
        }
    }

    /// The miner price list entry under `key`, if any.
    pub fn miner_price(&self, key: &str) -> (p: Option<u64>)
        ensures
            p == table_get(self@.buy_miner, key@),
    {
        match self.buy_miner.get(key) {
            Some(p) => Some(*p),
            None => None,
        }
    }
}

/// Upgrade name and level, as a view.
pub type EntryView = (Seq<char>, u8);

/// The position of `key` among `entries` (its last one), if it is there.
pub open spec fn key_position(entries: Seq<EntryView>, key: Seq<char>) -> Option<int>
    decreases entries.len(),
{
    if entries.len() == 0 {
        None
    } else if entries.last().0 == key {
        Some(entries.len() - 1)
    } else {
        key_position(entries.drop_last(), key)
    }
}

/// The level held under `key`, if any.
pub open spec fn level_of(entries: Seq<EntryView>, key: Seq<char>) -> Option<u8> {
    match key_position(entries, key) {
        Some(i) => Some(entries[i].1),
        None => None,
    }
}

/// No name occurs twice.
pub open spec fn distinct_keys(entries: Seq<EntryView>) -> bool {
    forall|i: int, j: int| 0 <= i < j < entries.len() ==> entries[i].0 != entries[j].0
}

pub proof fn lemma_key_position(entries: Seq<EntryView>, key: Seq<char>)
    ensures
        match key_position(entries, key) {
            Some(i) => 0 <= i < entries.len() && entries[i].0 == key,
            None => forall|j: int| 0 <= j < entries.len() ==> entries[j].0 != key,
        },
    decreases entries.len(),
{
    if entries.len() > 0 {
        let rest = entries.drop_last();
        lemma_key_position(rest, key);
        assert forall|j: int| 0 <= j < rest.len() implies rest[j] == entries[j] by {}
    }
}

pub proof fn lemma_key_position_at(entries: Seq<EntryView>, key: Seq<char>, i: int)
    requires
        distinct_keys(entries),
        0 <= i < entries.len(),
        entries[i].0 == key,
    ensures
        key_position(entries, key) == Some(i),
    decreases entries.len(),
{
    if i < entries.len() - 1 {
        lemma_key_position_at(entries.drop_last(), key, i);
    }
}

/// The upgrades an account owns: each name once, with its level, in a fixed order.
pub struct Upgrades {
    entries: Vec<(String, u8)>,
}

pub open spec fn entry_view(e: (String, u8)) -> EntryView {
    (e.0@, e.1)
}

impl View for Upgrades {
    type V = Seq<EntryView>;

    closed spec fn view(&self) -> Seq<EntryView> {
        self.entries@.map_values(|e: (String, u8)| entry_view(e))
    }
}

impl Upgrades {
    #[verifier::type_invariant]
    closed spec fn inv(self) -> bool {
        distinct_keys(self@)
    }

    /// No upgrade.
    pub fn new() -> (u: Upgrades)
        ensures
            u@ == Seq::<EntryView>::empty(),
    {
        let u = Upgrades { entries: Vec::new() };
        assert(u@ =~= Seq::<EntryView>::empty());
        u
    }

    /// How many upgrades there are.
    pub fn len(&self) -> (n: usize)
        ensures
            n == self@.len(),
            distinct_keys(self@),
    {
        proof {
            use_type_invariant(self);
        }
        self.entries.len()
    }

    /// The name of the `i`-th upgrade.
    pub fn name_at(&self, i: usize) -> (name: &String)
        requires
            i < self@.len(),
        ensures
            name@ == self@[i as int].0,
    {
        &self.entries[i].0
    }

    /// The level of the `i`-th upgrade.
    pub fn level_at(&self, i: usize) -> (level: u8)
        requires
            i < self@.len(),
        ensures
            level == self@[i as int].1,
    {
        self.entries[i].1
    }

    fn find(&self, key: &str) -> (pos: Option<usize>)
        ensures
            match pos {
                Some(i) => key_position(self@, key@) == Some(i as int) && i < self@.len(),
                None => key_position(self@, key@) is None,
            },
    {
        proof {
            use_type_invariant(self);
        }
        let wanted = String::from_str(key);
        let n = self.entries.len();
        let mut i: usize = 0;
        while i < n
            invariant
                n == self@.len(),
                n == self.entries@.len(),
                wanted@ == key@,
                distinct_keys(self@),
                i <= n,
                forall|j: int| 0 <= j < i ==> self@[j].0 != key@,
            decreases n - i,
        {
            assert(self@[i as int] == entry_view(self.entries@[i as int]));
            if self.entries[i].0 == wanted {
                proof {
                    lemma_key_position_at(self@, key@, i as int);
                }
                return Some(i);
            }
            i = i + 1;
        }
        proof {
            lemma_key_position(self@, key@);
        }
        None
    }

    /// The level of the upgrade named `key`, if the account owns it.
    pub fn get(&self, key: &str) -> (level: Option<u8>)
        ensures
            level == level_of(self@, key@),
    {
        match self.find(key) {
            Some(i) => {
                assert(self@[i as int] == entry_view(self.entries@[i as int]));
                Some(self.entries[i].1)
            },
            None => None,
        }
    }

    /// Sets the level of the upgrade named `key`: in its place if it is there,
    /// else as a new last upgrade.
    pub fn insert(&mut self, key: String, level: u8)
        ensures
            match key_position(old(self)@, key@) {
                Some(i) => final(self)@ == old(self)@.update(i, (key@, level)),
                None => final(self)@ == old(self)@.push((key@, level)),
            },
    {
        proof {
            use_type_invariant(&*self);
            lemma_key_position(self@, key@);
        }
        let ghost before = self@;
        match self.find(key.as_str()) {
            Some(i) => {
                let mut entries: Vec<(String, u8)> = Vec::new();
                std::mem::swap(&mut entries, &mut self.entries);
                assert(entries@.map_values(|e: (String, u8)| entry_view(e)) == before);
                entries.set(i, (key, level));
                assert(entries@.map_values(|e: (String, u8)| entry_view(e)) =~= before.update(
                    i as int,
                    (key@, level),
                ));
                self.entries = entries;
            },
            None => {
                let mut entries: Vec<(String, u8)> = Vec::new();
                std::mem::swap(&mut entries, &mut self.entries);
                assert(entries@.map_values(|e: (String, u8)| entry_view(e)) == before);
                entries.push((key, level));
                assert(entries@.map_values(|e: (String, u8)| entry_view(e)) =~= before.push(
                    (key@, level),
                ));
                self.entries = entries;
            },
        }
    }
}

/// A player's account as the store keeps it.
pub struct TokenData {
    pub _id: String,
    pub username: Option<String>,
    pub first_name: Option<String>,
    pub last_name: Option<String>,
    pub register_in_game: Timestamp,
    pub upgrades: Upgrades,
    pub language: String,
    pub oxi_tokens_value: u64,
    pub last_time_update: Timestamp,
    pub tokens_hour: u32,
    pub referal_code: String,
    pub referals: Vec<String>,
}

pub struct TokenDataView {
    pub id: Seq<char>,
    pub username: Option<Seq<char>>,
    pub first_name: Option<Seq<char>>,
    pub last_name: Option<Seq<char>>,
    pub register_in_game: Timestamp,
    pub upgrades: Seq<EntryView>,
    pub language: Seq<char>,
    pub oxi_tokens_value: u64,
    pub last_time_update: Timestamp,
    pub tokens_hour: u32,
    pub referal_code: Seq<char>,
    pub referals: Seq<Seq<char>>,
}

impl View for TokenData {
    type V = TokenDataView;

    open spec fn view(&self) -> TokenDataView {
        TokenDataView {
            id: self._id@,
            username: crate::reply::opt_string_view(self.username),
            first_name: crate::reply::opt_string_view(self.first_name),
            last_name: crate::reply::opt_string_view(self.last_name),
            register_in_game: self.register_in_game,
            upgrades: self.upgrades@,
            language: self.language@,
            oxi_tokens_value: self.oxi_tokens_value,
            last_time_update: self.last_time_update,
            tokens_hour: self.tokens_hour,
            referal_code: self.referal_code@,
            referals: crate::reply::strings_view(self.referals@),
        }
    }
}

/// A copy of an optional text.
pub fn copy_opt_string(s: &Option<String>) -> (r: Option<String>)
    ensures
        crate::reply::opt_string_view(r) == crate::reply::opt_string_view(*s),
{
    match s {
        Some(t) => Some(t.clone()),
        None => None,
    }
}

/// A copy of a list of texts.
pub fn copy_strings(v: &Vec<String>) -> (r: Vec<String>)
    ensures
        crate::reply::strings_view(r@) == crate::reply::strings_view(v@),
{
    let mut r: Vec<String> = Vec::new();
    let n = v.len();
    let mut i: usize = 0;
    while i < n
        invariant
            n == v@.len(),
            i <= n,
            r@.len() == i,
            forall|j: int| 0 <= j < i ==> r@[j]@ == v@[j]@,
        decreases n - i,
    {
        r.push(v[i].clone());
        i = i + 1;
    }
    assert(crate::reply::strings_view(r@) =~= crate::reply::strings_view(v@));
    r
}

} // verus!
