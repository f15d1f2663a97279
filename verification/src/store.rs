//! The platform's state: its settings, the collection registry, the mint
//! records, the partners and the table of pending instantiations.

use crate::state::{
    Collection, CollectionView, Config, ConfigView, MintInfo, Partner, PartnerView,
};
use crate::validation::is_collection_wf;
use vstd::hash_map::{HashMapWithView, StringHashMap};
use vstd::prelude::*;

verus! {

/// The model of the platform's state. Each table is a map from its key to
/// the model of the record kept under it.
pub struct LighthouseView {
    /// The settings, once the platform was set up.
    pub config: Option<ConfigView>,
    /// The registry: launched collections by their contract address.
    pub collections: Map<Seq<char>, CollectionView>,
    /// The units issued in each group, by collection and group.
    pub global_mint_info: Map<Seq<char>, u128>,
    /// The units each wallet minted, by wallet, collection and group.
    pub mint_info: Map<Seq<char>, Seq<u128>>,
    /// Who minted each unit.
    pub mint_logs: Map<Seq<char>, Seq<char>>,
    /// The partners by their address.
    pub partners: Map<Seq<char>, PartnerView>,
    /// The collections that wait for their contract, by correlation id.
    pub instantiates: Map<u64, CollectionView>,
}

impl LighthouseView {
    /// The state's invariant. Every registered collection keeps its own
    /// invariant and knows the address it is registered under; every partner
    /// takes at most 99 percent; every pending collection keeps its
    /// invariant and waits under an id that was already handed out.
    pub open spec fn wf(self) -> bool {
        &&& forall|k: Seq<char>| #[trigger]
            self.collections.contains_key(k) ==> {
                &&& self.collections[k].wf()
                &&& self.collections[k].collection_address == Some(k)
            }
        &&& forall|k: Seq<char>| #[trigger]
            self.partners.contains_key(k) ==> self.partners[k].wf()
        &&& forall|id: u64| #[trigger]
            self.instantiates.contains_key(id) ==> {
                &&& self.instantiates[id].wf()
                &&& self.config matches Some(config) && id < config.next_reply_id
            }
    }

    /// The state before the platform was set up.
    pub open spec fn empty() -> LighthouseView {
        LighthouseView {
            config: None,
            collections: Map::empty(),
            global_mint_info: Map::empty(),
            mint_info: Map::empty(),
            mint_logs: Map::empty(),
            partners: Map::empty(),
            instantiates: Map::empty(),
        }
    }

    /// The units a wallet has minted under `key`; none where nothing is
    /// recorded.
    pub open spec fn minted(self, key: Seq<char>) -> Seq<u128> {
        if self.mint_info.contains_key(key) {
            self.mint_info[key]
        } else {
            Seq::empty()
        }
    }

    /// The units a group has issued under `key`; 0 where nothing is
    /// recorded.
    pub open spec fn issued(self, key: Seq<char>) -> u128 {
        if self.global_mint_info.contains_key(key) {
            self.global_mint_info[key]
        } else {
            0
        }
    }

    /// The partner registered under `address`, where an address is given and
    /// a partner is registered under it.
    pub open spec fn partner_of(self, address: Option<Seq<char>>) -> Option<PartnerView> {
        match address {
            Some(a) => if self.partners.contains_key(a) {
                Some(self.partners[a])
            } else {
                None
            },
            None => None,
        }
    }
}

/// The platform's state.
pub struct Lighthouse {
    config: Option<Config>,
    collections: StringHashMap<Collection>,
    global_mint_info: StringHashMap<u128>,
    mint_info: StringHashMap<MintInfo>,
    mint_logs: StringHashMap<String>,
    partners: StringHashMap<Partner>,
    instantiates: HashMapWithView<u64, Collection>,
}

impl View for Lighthouse {
    type V = LighthouseView;

    closed spec fn view(&self) -> LighthouseView {
        LighthouseView {
            config: self.config.deep_view(),
            collections: self.collections@.map_values(|c: Collection| c@),
            global_mint_info: self.global_mint_info@,
            mint_info: self.mint_info@.map_values(|m: MintInfo| m@),
            mint_logs: self.mint_logs@.map_values(|s: String| s@),
            partners: self.partners@.map_values(|p: Partner| p@),
            instantiates: self.instantiates@.map_values(|c: Collection| c@),
        }
    }
}

impl Lighthouse {
    /// Whether the state keeps its invariant.
    pub open spec fn wf(&self) -> bool {
        self@.wf()
    }

    /// The state before the platform was set up: no settings and empty
    /// tables.
    pub fn new() -> (state: Lighthouse)
        ensures
            state@ == LighthouseView::empty(),
            state.wf(),
    {
        broadcast use vstd::std_specs::hash::group_hash_axioms;

        let state = Lighthouse {
            config: None,
            collections: StringHashMap::new(),
            global_mint_info: StringHashMap::new(),
            mint_info: StringHashMap::new(),
            mint_logs: StringHashMap::new(),
            partners: StringHashMap::new(),
            instantiates: HashMapWithView::new(),
        };
        proof {
            assert(state@.collections =~= Map::empty());
            assert(state@.mint_info =~= Map::empty());
            assert(state@.mint_logs =~= Map::empty());
            assert(state@.partners =~= Map::empty());
            assert(state@.instantiates =~= Map::empty());
        }
        state
    }

    /// The settings, once the platform was set up.
    pub fn config(&self) -> (config: Option<&Config>)
        ensures
            match config {
                Some(c) => self@.config == Some(c@),
                None => self@.config is None,
            },
    {
        self.config.as_ref()
    }

    /// The collection registered under `key`.
    pub fn collection(&self, key: &str) -> (collection: Option<&Collection>)
        ensures
            match collection {
                Some(c) => self@.collections.contains_key(key@) && self@.collections[key@] == c@,
                None => !self@.collections.contains_key(key@),
            },
    {
        self.collections.get(key)
    }

    /// The partner registered under `key`.
    pub fn partner(&self, key: &str) -> (partner: Option<&Partner>)
        ensures
            match partner {
                Some(p) => self@.partners.contains_key(key@) && self@.partners[key@] == p@,
                None => !self@.partners.contains_key(key@),
            },
    {
        self.partners.get(key)
    }

    /// The units a wallet has minted under `key`.
    pub fn wallet_mints(&self, key: &str) -> (mints: Option<&MintInfo>)
        ensures
            match mints {
                Some(m) => self@.mint_info.contains_key(key@) && self@.mint_info[key@] == m@,
                None => !self@.mint_info.contains_key(key@),
            },
    {
        self.mint_info.get(key)
    }

    /// The units a group has issued under `key`.
    pub fn group_total(&self, key: &str) -> (total: Option<u128>)
        ensures
            match total {
                Some(t) => self@.global_mint_info.contains_key(key@) && self@.global_mint_info[key@]
                    == t,
                None => !self@.global_mint_info.contains_key(key@),
            },
    {
        match self.global_mint_info.get(key) {
            Some(t) => Some(*t),
            None => None,
        }
    }

    /// Who minted the unit logged under `key`.
    pub fn minter(&self, key: &str) -> (minter: Option<&String>)
        ensures
            match minter {
                Some(m) => self@.mint_logs.contains_key(key@) && self@.mint_logs[key@] == m@,
                None => !self@.mint_logs.contains_key(key@),
            },
    {
        self.mint_logs.get(key)
    }

    /// The collection that waits under `id`.
    pub fn pending(&self, id: u64) -> (collection: Option<&Collection>)
        ensures
            match collection {
                Some(c) => self@.instantiates.contains_key(id) && self@.instantiates[id] == c@,
                None => !self@.instantiates.contains_key(id),
            },
    {
        self.instantiates.get(&id)
    }

    /// Puts settings back into a state in which nothing waits. Returns
    /// whether it did; where a collection waits the state stays as it was.
    pub fn restore_config(&mut self, config: Config) -> (done: bool)
        requires
            old(self).wf(),
        ensures
            final(self).wf(),
            done == (old(self)@.instantiates.dom() =~= Set::<u64>::empty()),
            done ==> final(self)@ == (LighthouseView { config: Some(config@), ..old(self)@ }),
            !done ==> final(self)@ == old(self)@,
    {
        if !self.instantiates.is_empty() {
            assert(!(self.instantiates@.dom() =~= Set::<u64>::empty()));
            return false;
        }
        assert(self.instantiates@.dom() =~= Set::<u64>::empty());
        self.config = Some(config);
        true
    }

    /// Puts a collection back into the registry under its address. Returns
    /// whether it did; a collection that breaks its invariant or names
    /// another address is left out.
    pub fn restore_collection(&mut self, key: String, collection: Collection) -> (done: bool)
        requires
            old(self).wf(),
        ensures
            final(self).wf(),
            done == (collection@.wf() && collection@.collection_address == Some(key@)),
            done ==> final(self)@ == (LighthouseView {
                collections: old(self)@.collections.insert(key@, collection@),
                ..old(self)@
            }),
            !done ==> final(self)@ == old(self)@,
    {
        let named = match &collection.collection_address {
            Some(address) => *address == key,
            None => false,
        };
        if !named || !is_collection_wf(&collection) {
            return false;
        }
        self.set_collection(key, collection);
        true
    }

    /// Puts a waiting collection back under its correlation id. Returns
    /// whether it did; a collection that breaks its invariant, or an id
    /// that was not handed out yet, is left out.
    pub fn restore_pending(&mut self, id: u64, collection: Collection) -> (done: bool)
        requires
            old(self).wf(),
        ensures
            final(self).wf(),
            done == (collection@.wf() && old(self)@.config is Some && id < old(self)@.config->0.next_reply_id),
            done ==> final(self)@ == (LighthouseView {
                instantiates: old(self)@.instantiates.insert(id, collection@),
                ..old(self)@
            }),
            !done ==> final(self)@ == old(self)@,
    {
        let issued = match &self.config {
            Some(config) => id < config.next_reply_id,
            None => false,
        };
        if !issued || !is_collection_wf(&collection) {
            return false;
        }
        self.set_pending(id, collection);
        true
    }

    /// Puts a partner back under its address. Returns whether it did; a
    /// partner that takes more than 99 percent is left out.
    pub fn restore_partner(&mut self, key: String, partner: Partner) -> (done: bool)
        requires
            old(self).wf(),
        ensures
            final(self).wf(),
            done == partner@.wf(),
            done ==> final(self)@ == (LighthouseView {
                partners: old(self)@.partners.insert(key@, partner@),
                ..old(self)@
            }),
            !done ==> final(self)@ == old(self)@,
    {
        if partner.fee_percent > 99 {
            return false;
        }
        self.set_partner(key, partner);
        true
    }

    /// Puts a wallet's mints back under their key.
    pub fn restore_wallet_mints(&mut self, key: String, mints: MintInfo)
        requires
            old(self).wf(),
        ensures
            final(self).wf(),
            final(self)@ == (LighthouseView {
                mint_info: old(self)@.mint_info.insert(key@, mints@),
                ..old(self)@
            }),
    {
        self.set_wallet_mints(key, mints);
    }

    /// Puts a group's running total back under its key.
    pub fn restore_group_total(&mut self, key: String, total: u128)
        requires
            old(self).wf(),
        ensures
            final(self).wf(),
            final(self)@ == (LighthouseView {
                global_mint_info: old(self)@.global_mint_info.insert(key@, total),
                ..old(self)@
            }),
    {
        self.set_group_total(key, total);
    }

    /// Puts the minter of a unit back under the unit's key.
    pub fn restore_minter(&mut self, key: String, minter: String)
        requires
            old(self).wf(),
        ensures
            final(self).wf(),
            final(self)@ == (LighthouseView {
                mint_logs: old(self)@.mint_logs.insert(key@, minter@),
                ..old(self)@
            }),
    {
        self.log_minter(key, minter);
    }

    pub(crate) fn set_config(&mut self, config: Config)
        ensures
            final(self)@ == (LighthouseView { config: Some(config@), ..old(self)@ }),
    {
        self.config = Some(config);
    }

    pub(crate) fn set_collection(&mut self, key: String, collection: Collection)
        ensures
            final(self)@ == (LighthouseView {
                collections: old(self)@.collections.insert(key@, collection@),
                ..old(self)@
            }),
    {
        self.collections.insert(key, collection);
        assert(self@.collections =~= old(self)@.collections.insert(key@, collection@));
    }

    pub(crate) fn set_partner(&mut self, key: String, partner: Partner)
        ensures
            final(self)@ == (LighthouseView {
                partners: old(self)@.partners.insert(key@, partner@),
                ..old(self)@
            }),
    {
        self.partners.insert(key, partner);
        assert(self@.partners =~= old(self)@.partners.insert(key@, partner@));
    }

    pub(crate) fn set_wallet_mints(&mut self, key: String, mints: MintInfo)
        ensures
            final(self)@ == (LighthouseView {
                mint_info: old(self)@.mint_info.insert(key@, mints@),
                ..old(self)@
            }),
    {
        self.mint_info.insert(key, mints);
        assert(self@.mint_info =~= old(self)@.mint_info.insert(key@, mints@));
    }

    pub(crate) fn set_group_total(&mut self, key: String, total: u128)
        ensures
            final(self)@ == (LighthouseView {
                global_mint_info: old(self)@.global_mint_info.insert(key@, total),
                ..old(self)@
            }),
    {
        self.global_mint_info.insert(key, total);
    }

    pub(crate) fn log_minter(&mut self, key: String, minter: String)
        ensures
            final(self)@ == (LighthouseView {
                mint_logs: old(self)@.mint_logs.insert(key@, minter@),
                ..old(self)@
            }),
    {
        self.mint_logs.insert(key, minter);
        assert(self@.mint_logs =~= old(self)@.mint_logs.insert(key@, minter@));
    }

    pub(crate) fn set_pending(&mut self, id: u64, collection: Collection)
        ensures
            final(self)@ == (LighthouseView {
                instantiates: old(self)@.instantiates.insert(id, collection@),
                ..old(self)@
            }),
    {
        self.instantiates.insert(id, collection);
        assert(self@.instantiates =~= old(self)@.instantiates.insert(id, collection@));
    }

    pub(crate) fn take_pending(&mut self, id: u64) -> (collection: Option<Collection>)
        ensures
            match collection {
                Some(c) => {
                    &&& old(self)@.instantiates.contains_key(id)
                    &&& old(self)@.instantiates[id] == c@
                    &&& final(self)@ == (LighthouseView {
                        instantiates: old(self)@.instantiates.remove(id),
                        ..old(self)@
                    })
                },
                None => !old(self)@.instantiates.contains_key(id) && final(self)@ == old(self)@,
            },
    {
        let taken = self.instantiates.remove(&id);
        if taken.is_some() {
            assert(self@.instantiates =~= old(self)@.instantiates.remove(id));
        }
        taken
    }
}

impl Default for Lighthouse {
    fn default() -> (state: Lighthouse)
        ensures
            state@ == LighthouseView::empty(),
            state.wf(),
    {
        Lighthouse::new()
    }
}

} // verus!
