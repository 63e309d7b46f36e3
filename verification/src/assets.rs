//! Base game assets and the providers that hand them to the importer.
use std::collections::HashMap;
use vstd::prelude::*;

verus! {

broadcast use vstd::std_specs::hash::group_hash_axioms;

/// A file of the base game that some imports need.
#[derive(Debug, Clone, Copy, PartialEq, Eq, Structural, Hash)]
pub enum Asset {
    /// The main TETR.IO source code file, located at https://tetr.io/js/tetrio.js
    TetrioJS,
    /// The TETR.IO sound effects file, located at https://tetr.io/sfx/tetrio.opus.rsd
    TetrioRSD,
}

impl Asset {
    /// The number that stands for the asset where assets are passed as bytes.
    pub open spec fn spec_code(self) -> u8 {
        match self {
            Asset::TetrioJS => 0,
            Asset::TetrioRSD => 1,
        }
    }

    /// The asset with the given number; `Err(())` for a number that stands for none.
    pub fn try_from(value: u8) -> (r: Result<Asset, ()>)
        ensures
            match r {
                Ok(a) => a.spec_code() == value,
                Err(_) => value >= 2,
            },
    {
        if value == 0 {
            Ok(Asset::TetrioJS)
        } else if value == 1 {
            Ok(Asset::TetrioRSD)
        } else {
            Err(())
        }
    }

    /// The asset's file name.
    pub open spec fn spec_name(self) -> Seq<char> {
        match self {
            Asset::TetrioJS => "tetrio.js"@,
            Asset::TetrioRSD => "tetrio.opus.rsd"@,
        }
    }

    /// The asset's file name, as it is shown in logs.
    pub fn name(&self) -> (r: &'static str)
        ensures
            r@ == self.spec_name(),
    {
        match self {
            Asset::TetrioJS => "tetrio.js",
            Asset::TetrioRSD => "tetrio.opus.rsd",
        }
    }
}

/// Every asset's number leads back to the asset, and no two assets share a number.
pub proof fn lemma_asset_code_roundtrip(a: Asset, b: Asset)
    ensures
        a.spec_code() < 2,
        a.spec_code() == b.spec_code() ==> a == b,
{
}

/// The error of a cached asset provider asked for an asset that it does not hold.
#[derive(Debug, Clone, Copy, PartialEq, Eq, Structural)]
pub struct CachedAssetProviderError(pub Asset);

impl CachedAssetProviderError {
    /// The error's message.
    pub open spec fn spec_describe(self) -> Seq<char> {
        "the "@ + self.0.spec_name() + " asset was not preloaded and the cached asset provider cannot fetch it"@
    }

    /// The error's message, naming the asset.
    pub fn describe(&self) -> (r: String)
        ensures
            r@ == self.spec_describe(),
    {
        let mut s = String::new();
        s.append("the ");
        s.append(self.0.name());
        s.append(" asset was not preloaded and the cached asset provider cannot fetch it");
        s
    }
}

/// The number of `asset`, computed.
fn asset_code(asset: Asset) -> (r: u8)
    ensures
        r == asset.spec_code(),
{
    match asset {
        Asset::TetrioJS => 0,
        Asset::TetrioRSD => 1,
    }
}

/// The bytes that `cache` holds under `asset`'s number, cloned.
fn lookup(cache: &HashMap<u8, Vec<u8>>, asset: Asset) -> (r: Option<Vec<u8>>)
    ensures
        match r {
            Some(v) => cache@.contains_key(asset.spec_code()) && v@ == cache@[asset.spec_code()]@,
            None => !cache@.contains_key(asset.spec_code()),
        },
{
    let code = asset_code(asset);
    match cache.get(&code) {
        Some(bytes) => {
            let v = bytes.clone();
            assert(v@ =~= bytes@);
            Some(v)
        },
        None => None,
    }
}

/// An asset provider that can hand out only the assets it was given beforehand,
/// each under its asset's number.
pub struct CachedAssetProvider {
    pub cache: HashMap<u8, Vec<u8>>,
}

impl CachedAssetProvider {
    /// Hands out the bytes cached for `asset`, or fails naming the asset.
    pub fn provide(&self, asset: Asset) -> (r: Result<Vec<u8>, CachedAssetProviderError>)
        ensures
            match r {
                Ok(v) => self.cache@.contains_key(asset.spec_code()) && v@
                    == self.cache@[asset.spec_code()]@,
                Err(e) => !self.cache@.contains_key(asset.spec_code()) && e
                    == CachedAssetProviderError(asset),
            },
    {
        match lookup(&self.cache, asset) {
            Some(v) => Ok(v),
            None => Err(CachedAssetProviderError(asset)),
        }
    }
}

/// An asset provider whose assets are preloaded by hand.
pub struct DefaultAssetProvider {
    cache: HashMap<u8, Vec<u8>>,
}

impl DefaultAssetProvider {
    /// The preloaded assets and their bytes.
    pub closed spec fn view_map(&self) -> Map<Asset, Seq<u8>> {
        Map::new(
            |a: Asset| self.cache@.contains_key(a.spec_code()),
            |a: Asset| self.cache@[a.spec_code()]@,
        )
    }

    /// A provider with nothing preloaded.
    pub fn new() -> (r: DefaultAssetProvider)
        ensures
            r.view_map() == Map::<Asset, Seq<u8>>::empty(),
    {
        let r = DefaultAssetProvider { cache: HashMap::new() };
        assert(r.view_map() =~= Map::<Asset, Seq<u8>>::empty());
        r
    }

    /// Preloads `data` as the bytes of `asset`, in place of what was preloaded for it before.
    pub fn preload(&mut self, asset: Asset, data: Vec<u8>)
        ensures
            final(self).view_map() == old(self).view_map().insert(asset, data@),
    {
        let ghost data_view = data@;
        let code = asset_code(asset);
        self.cache.insert(code, data);
        assert forall|a: Asset, b: Asset| a.spec_code() == b.spec_code() implies a == b by {
            lemma_asset_code_roundtrip(a, b);
        }
        assert(self.view_map() =~= old(self).view_map().insert(asset, data_view));
    }

    /// Hands out the bytes preloaded for `asset`, if any.
    pub fn provide(&self, asset: Asset) -> (r: Option<Vec<u8>>)
        ensures
            match r {
                Some(v) => self.view_map().contains_key(asset) && v@ == self.view_map()[asset],
                None => !self.view_map().contains_key(asset),
            },
    {
        lookup(&self.cache, asset)
    }
}

} // verus!
