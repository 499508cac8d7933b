//! Conversion of a decoded SoundFont preset into a Deluge voice patch:
//! bag-range resolution, zone coalescing onto the two oscillator slots, and
//! envelope transcoding.

use vstd::prelude::*;
use crate::soundfont::{Bag, Generator, Instrument, LoopMode, Preset, SoundFont,
    SoundFontV};
use crate::deluge::{DefaultParamsV, Envelope, Osc, OscType, OscV, SampleRange, SampleRangeV,
    SampleRanges, Sound, SoundV, Value, Zone, spec_attack_table, spec_decay_table,
    spec_default_params_default, spec_display_for_level, spec_display_for_time,
    spec_from_display_bits, spec_osc_default, spec_release_table, spec_sound_default,
    spec_sustain_table, spec_zone_default};

verus! {

// --- EntityIndex: bag-implied slice ranges -----------------------------------

/// The end of entity `i`'s slice of a shared array: the next entity's first
/// index, or the shared array's length when `i` is the last entity.
pub open spec fn spec_slice_end(firsts: Seq<u16>, i: int, total: int) -> int {
    if i + 1 < firsts.len() {
        firsts[i + 1] as int
    } else {
        total
    }
}

/// Resolves the end of entity `i`'s slice: `firsts[i + 1]` when `i` is not
/// last, else `total`, the shared array's length. Presets over preset bags,
/// instruments over instrument bags, and bags over generators or modulators
/// all resolve their ranges through this one helper.
pub fn slice_end(firsts: &Vec<u16>, i: usize, total: usize) -> (r: usize)
    requires
        i < firsts@.len(),
    ensures
        r == spec_slice_end(firsts@, i as int, total as int),
{
    let n = firsts.len();
    if i + 1 < n {
        firsts[i + 1] as usize
    } else {
        total
    }
}

// --- Well-formedness ----------------------------------------------------------

/// A bank is well formed when every bag index, generator index, modulator
/// index, instrument reference and sample reference stays within its shared
/// array.
pub open spec fn spec_wf(sf: SoundFontV) -> bool {
    &&& forall|i: int|
        0 <= i < sf.presets.len() ==> (#[trigger] sf.presets[i].bag_index) as int
            <= sf.pbags.len()
    &&& forall|i: int|
        0 <= i < sf.instruments.len() ==> (#[trigger] sf.instruments[i].bag_index) as int
            <= sf.ibags.len()
    &&& forall|i: int|
        #![trigger sf.pbags[i].gen_ndx]
        #![trigger sf.pbags[i].mod_ndx]
        0 <= i < sf.pbags.len() ==> sf.pbags[i].gen_ndx as int <= sf.pgens.len()
            && sf.pbags[i].mod_ndx as int <= sf.pmods.len()
    &&& forall|i: int|
        #![trigger sf.ibags[i].gen_ndx]
        #![trigger sf.ibags[i].mod_ndx]
        0 <= i < sf.ibags.len() ==> sf.ibags[i].gen_ndx as int <= sf.igens.len()
            && sf.ibags[i].mod_ndx as int <= sf.imods.len()
    &&& forall|i: int|
        0 <= i < sf.pgens.len() ==> match #[trigger] sf.pgens[i] {
            Generator::Instrument(ix) => (ix as int) < sf.instruments.len(),
            _ => true,
        }
    &&& forall|i: int|
        0 <= i < sf.igens.len() ==> match #[trigger] sf.igens[i] {
            Generator::SampleID(s) => (s as int) < sf.samples.len(),
            _ => true,
        }
}

/// Checks the preset bag indices.
fn check_preset_bags(sf: &SoundFont) -> (r: bool)
    ensures
        r == forall|i: int|
            0 <= i < sf@.presets.len() ==> (#[trigger] sf@.presets[i].bag_index) as int
                <= sf@.pbags.len(),
{
    let mut i: usize = 0;
    while i < sf.presets.len()
        invariant
            i <= sf@.presets.len(),
            forall|j: int|
                0 <= j < i ==> (#[trigger] sf@.presets[j].bag_index) as int <= sf@.pbags.len(),
        decreases sf@.presets.len() - i,
    {
        if sf.presets[i].bag_index as usize > sf.pbags.len() {
            assert(sf@.presets[i as int].bag_index as int > sf@.pbags.len());
            return false;
        }
        i = i + 1;
    }
    true
}

/// Checks the instrument bag indices.
fn check_instrument_bags(sf: &SoundFont) -> (r: bool)
    ensures
        r == forall|i: int|
            0 <= i < sf@.instruments.len() ==> (#[trigger] sf@.instruments[i].bag_index) as int
                <= sf@.ibags.len(),
{
    let mut i: usize = 0;
    while i < sf.instruments.len()
        invariant
            i <= sf@.instruments.len(),
            forall|j: int|
                0 <= j < i ==> (#[trigger] sf@.instruments[j].bag_index) as int
                    <= sf@.ibags.len(),
        decreases sf@.instruments.len() - i,
    {
        if sf.instruments[i].bag_index as usize > sf.ibags.len() {
            assert(sf@.instruments[i as int].bag_index as int > sf@.ibags.len());
            return false;
        }
        i = i + 1;
    }
    true
}

/// Checks one bag array's generator and modulator indices.
fn check_bags(bags: &Vec<Bag>, gens_len: usize, mods_len: usize) -> (r: bool)
    ensures
        r == forall|i: int|
            #![trigger bags@[i].gen_ndx]
            #![trigger bags@[i].mod_ndx]
            0 <= i < bags@.len() ==> bags@[i].gen_ndx as int <= gens_len && bags@[i].mod_ndx
                as int <= mods_len,
{
    let mut i: usize = 0;
    while i < bags.len()
        invariant
            i <= bags@.len(),
            forall|j: int|
                #![trigger bags@[j].gen_ndx]
                #![trigger bags@[j].mod_ndx]
                0 <= j < i ==> bags@[j].gen_ndx as int <= gens_len && bags@[j].mod_ndx as int
                    <= mods_len,
        decreases bags@.len() - i,
    {
        if bags[i].gen_ndx as usize > gens_len || bags[i].mod_ndx as usize > mods_len {
            assert(!(bags@[i as int].gen_ndx as int <= gens_len && bags@[i as int].mod_ndx
                as int <= mods_len));
            return false;
        }
        i = i + 1;
    }
    true
}

/// Checks the instrument references in the preset generators.
fn check_pgen_refs(sf: &SoundFont) -> (r: bool)
    ensures
        r == forall|i: int|
            0 <= i < sf@.pgens.len() ==> match #[trigger] sf@.pgens[i] {
                Generator::Instrument(ix) => (ix as int) < sf@.instruments.len(),
                _ => true,
            },
{
    let mut i: usize = 0;
    while i < sf.pgens.len()
        invariant
            i <= sf@.pgens.len(),
            forall|j: int|
                0 <= j < i ==> match #[trigger] sf@.pgens[j] {
                    Generator::Instrument(ix) => (ix as int) < sf@.instruments.len(),
                    _ => true,
                },
        decreases sf@.pgens.len() - i,
    {
        if let Generator::Instrument(ix) = sf.pgens[i] {
            if ix as usize >= sf.instruments.len() {
                assert(sf@.pgens[i as int] == Generator::Instrument(ix));
                return false;
            }
        }
        i = i + 1;
    }
    true
}

/// Checks the sample references in the instrument generators.
fn check_igen_refs(sf: &SoundFont) -> (r: bool)
    ensures
        r == forall|i: int|
            0 <= i < sf@.igens.len() ==> match #[trigger] sf@.igens[i] {
                Generator::SampleID(s) => (s as int) < sf@.samples.len(),
                _ => true,
            },
{
    let mut i: usize = 0;
    while i < sf.igens.len()
        invariant
            i <= sf@.igens.len(),
            forall|j: int|
                0 <= j < i ==> match #[trigger] sf@.igens[j] {
                    Generator::SampleID(s) => (s as int) < sf@.samples.len(),
                    _ => true,
                },
        decreases sf@.igens.len() - i,
    {
        if let Generator::SampleID(s) = sf.igens[i] {
            if s as usize >= sf.samples.len() {
                assert(sf@.igens[i as int] == Generator::SampleID(s));
                return false;
            }
        }
        i = i + 1;
    }
    true
}

impl SoundFont {
    /// Checks that the bank's cross-array references are all in range, so
    /// that conversion can walk them without stepping outside any array.
    pub fn check_wf(&self) -> (r: bool)
        ensures
            r == spec_wf(self@),
    {
        let a = check_preset_bags(self);
        let b = check_instrument_bags(self);
        let c = check_bags(&self.pbags, self.pgens.len(), self.pmods.len());
        let d = check_bags(&self.ibags, self.igens.len(), self.imods.len());
        let e = check_pgen_refs(self);
        let f = check_igen_refs(self);
        a && b && c && d && e && f
    }
}

// --- Zone extraction ----------------------------------------------------------

/// The generator slice of instrument bag `b`, empty when the bag's range is
/// inverted.
pub open spec fn spec_izone(sf: SoundFontV, b: int) -> Seq<Generator> {
    let gs = sf.ibags[b].gen_ndx as int;
    let ge = spec_slice_end(sf.ibags.map_values(|x: Bag| x.gen_ndx), b, sf.igens.len() as int);
    if gs <= ge <= sf.igens.len() {
        sf.igens.subrange(gs, ge)
    } else {
        Seq::empty()
    }
}

/// The generator slice of preset bag `b`, empty when the bag's range is
/// inverted.
pub open spec fn spec_pzone(sf: SoundFontV, b: int) -> Seq<Generator> {
    let gs = sf.pbags[b].gen_ndx as int;
    let ge = spec_slice_end(sf.pbags.map_values(|x: Bag| x.gen_ndx), b, sf.pgens.len() as int);
    if gs <= ge <= sf.pgens.len() {
        sf.pgens.subrange(gs, ge)
    } else {
        Seq::empty()
    }
}

/// The zones of instrument `ix`: the generator slice of each of its bags.
pub open spec fn spec_instrument_zones(sf: SoundFontV, ix: int) -> Seq<Seq<Generator>> {
    let bs = sf.instruments[ix].bag_index as int;
    let be = spec_slice_end(
        sf.instruments.map_values(|x: crate::soundfont::InstrumentV| x.bag_index),
        ix,
        sf.ibags.len() as int,
    );
    if bs <= be <= sf.ibags.len() {
        Seq::new((be - bs) as nat, |k: int| spec_izone(sf, bs + k))
    } else {
        Seq::empty()
    }
}

/// Copies the slice `[gs, ge)` of a generator array (empty when inverted).
fn zone_slice(gens: &Vec<Generator>, gs: usize, ge: usize) -> (r: Vec<Generator>)
    requires
        ge <= gens@.len(),
    ensures
        r@ == if gs <= ge {
            gens@.subrange(gs as int, ge as int)
        } else {
            Seq::<Generator>::empty()
        },
{
    let mut r: Vec<Generator> = Vec::new();
    if gs > ge {
        return r;
    }
    let mut i = gs;
    while i < ge
        invariant
            gs <= i <= ge <= gens@.len(),
            r@ == gens@.subrange(gs as int, i as int),
        decreases ge - i,
    {
        r.push(gens[i]);
        i = i + 1;
        assert(r@ =~= gens@.subrange(gs as int, i as int));
    }
    assert(r@ =~= gens@.subrange(gs as int, ge as int));
    r
}

/// The first-index column of the instrument array.
fn instrument_firsts(v: &Vec<Instrument>) -> (r: Vec<u16>)
    ensures
        r@ == v@.map_values(|x: Instrument| x.bag_index),
{
    let mut r: Vec<u16> = Vec::new();
    let mut i: usize = 0;
    while i < v.len()
        invariant
            i <= v@.len(),
            r@ == v@.take(i as int).map_values(|x: Instrument| x.bag_index),
        decreases v@.len() - i,
    {
        r.push(v[i].bag_index);
        i = i + 1;
        assert(r@ =~= v@.take(i as int).map_values(|x: Instrument| x.bag_index));
    }
    assert(v@.take(v@.len() as int) =~= v@);
    r
}

/// The first-index column of the preset array.
fn preset_firsts(v: &Vec<Preset>) -> (r: Vec<u16>)
    ensures
        r@ == v@.map_values(|x: Preset| x.bag_index),
{
    let mut r: Vec<u16> = Vec::new();
    let mut i: usize = 0;
    while i < v.len()
        invariant
            i <= v@.len(),
            r@ == v@.take(i as int).map_values(|x: Preset| x.bag_index),
        decreases v@.len() - i,
    {
        r.push(v[i].bag_index);
        i = i + 1;
        assert(r@ =~= v@.take(i as int).map_values(|x: Preset| x.bag_index));
    }
    assert(v@.take(v@.len() as int) =~= v@);
    r
}

/// The generator-index column of a bag array.
fn bag_gen_firsts(v: &Vec<Bag>) -> (r: Vec<u16>)
    ensures
        r@ == v@.map_values(|x: Bag| x.gen_ndx),
{
    let mut r: Vec<u16> = Vec::new();
    let mut i: usize = 0;
    while i < v.len()
        invariant
            i <= v@.len(),
            r@ == v@.take(i as int).map_values(|x: Bag| x.gen_ndx),
        decreases v@.len() - i,
    {
        r.push(v[i].gen_ndx);
        i = i + 1;
        assert(r@ =~= v@.take(i as int).map_values(|x: Bag| x.gen_ndx));
    }
    assert(v@.take(v@.len() as int) =~= v@);
    r
}

/// The zones of instrument `ix`: one generator slice per bag, the bag range
/// bounded by the next instrument (or the bag array's end), each bag's
/// generator range bounded by the next bag (or the generator array's end).
pub fn get_instrument_zones(sf: &SoundFont, ix: usize) -> (r: Vec<Vec<Generator>>)
    requires
        spec_wf(sf@),
        ix < sf@.instruments.len(),
    ensures
        r@.map_values(|z: Vec<Generator>| z@) == spec_instrument_zones(sf@, ix as int),
{
    let ifirsts = instrument_firsts(&sf.instruments);
    let bfirsts = bag_gen_firsts(&sf.ibags);
    let bs = sf.instruments[ix].bag_index as usize;
    let be = slice_end(&ifirsts, ix, sf.ibags.len());
    let ghost iv = sf@.instruments.map_values(|x: crate::soundfont::InstrumentV| x.bag_index);
    proof {
        assert(ifirsts@ =~= iv);
    }
    let mut r: Vec<Vec<Generator>> = Vec::new();
    if bs > be {
        assert(spec_instrument_zones(sf@, ix as int) =~= r@.map_values(
            |z: Vec<Generator>| z@,
        ));
        return r;
    }
    assert(be <= sf@.ibags.len());
    let mut b = bs;
    while b < be
        invariant
            spec_wf(sf@),
            ix < sf@.instruments.len(),
            bs <= b <= be <= sf@.ibags.len(),
            bfirsts@ == sf@.ibags.map_values(|x: Bag| x.gen_ndx),
            r@.len() == b - bs,
            forall|k: int|
                0 <= k < r@.len() ==> #[trigger] r@[k]@ == spec_izone(sf@, bs + k),
        decreases be - b,
    {
        let gs = sf.ibags[b].gen_ndx as usize;
        let ge = slice_end(&bfirsts, b, sf.igens.len());
        assert(ge <= sf@.igens.len());
        let z = zone_slice(&sf.igens, gs, ge);
        assert(z@ == spec_izone(sf@, b as int));
        r.push(z);
        b = b + 1;
    }
    proof {
        assert(r@.map_values(|z: Vec<Generator>| z@) =~= spec_instrument_zones(
            sf@,
            ix as int,
        ));
    }
    r
}

// --- Instrument references of a preset ----------------------------------------

/// The instrument references in a generator slice, in order.
pub open spec fn spec_irefs(gens: Seq<Generator>) -> Seq<u16>
    decreases gens.len(),
{
    if gens.len() == 0 {
        Seq::empty()
    } else {
        spec_irefs(gens.drop_last()) + (match gens.last() {
            Generator::Instrument(ix) => seq![ix],
            _ => Seq::empty(),
        })
    }
}

/// The instrument references of the preset bags `[bs, be)`, in order.
pub open spec fn spec_preset_refs(sf: SoundFontV, bs: int, be: int) -> Seq<u16>
    decreases be - bs,
{
    if bs >= be {
        Seq::empty()
    } else {
        spec_preset_refs(sf, bs, be - 1) + spec_irefs(spec_pzone(sf, be - 1))
    }
}

/// The candidate zone pool of preset `ix`: the zones of every instrument
/// referenced through the preset's bags, concatenated in reference order.
pub open spec fn spec_zones_of_refs(sf: SoundFontV, refs: Seq<u16>) -> Seq<Seq<Generator>>
    decreases refs.len(),
{
    if refs.len() == 0 {
        Seq::empty()
    } else {
        spec_zones_of_refs(sf, refs.drop_last()) + (if (refs.last() as int)
            < sf.instruments.len() {
            spec_instrument_zones(sf, refs.last() as int)
        } else {
            Seq::empty()
        })
    }
}

/// The preset's whole candidate zone pool, in bag-discovery order.
pub open spec fn spec_preset_zone_pool(sf: SoundFontV, ix: int) -> Seq<Seq<Generator>> {
    let bs = sf.presets[ix].bag_index as int;
    let be = spec_slice_end(
        sf.presets.map_values(|x: crate::soundfont::PresetV| x.bag_index),
        ix,
        sf.pbags.len() as int,
    );
    spec_zones_of_refs(sf, spec_preset_refs(sf, bs, be))
}

/// Collects the instrument references in one generator slice.
fn irefs_of(z: &Vec<Generator>) -> (r: Vec<u16>)
    ensures
        r@ == spec_irefs(z@),
{
    let mut r: Vec<u16> = Vec::new();
    let mut i: usize = 0;
    while i < z.len()
        invariant
            i <= z@.len(),
            r@ == spec_irefs(z@.take(i as int)),
        decreases z@.len() - i,
    {
        proof {
            assert(z@.take(i as int + 1).drop_last() =~= z@.take(i as int));
        }
        if let Generator::Instrument(ix) = z[i] {
            r.push(ix);
        }
        i = i + 1;
    }
    assert(z@.take(z@.len() as int) =~= z@);
    r
}

/// Collects the instrument references of preset `ix` across its bags.
fn preset_refs(sf: &SoundFont, ix: usize) -> (r: Vec<u16>)
    requires
        spec_wf(sf@),
        ix < sf@.presets.len(),
    ensures
        r@ == spec_preset_refs(
            sf@,
            sf@.presets[ix as int].bag_index as int,
            spec_slice_end(
                sf@.presets.map_values(|x: crate::soundfont::PresetV| x.bag_index),
                ix as int,
                sf@.pbags.len() as int,
            ),
        ),
{
    let pfirsts = preset_firsts(&sf.presets);
    let bfirsts = bag_gen_firsts(&sf.pbags);
    let bs = sf.presets[ix].bag_index as usize;
    let be = slice_end(&pfirsts, ix, sf.pbags.len());
    let ghost bei = spec_slice_end(
        sf@.presets.map_values(|x: crate::soundfont::PresetV| x.bag_index),
        ix as int,
        sf@.pbags.len() as int,
    );
    proof {
        assert(pfirsts@ =~= sf@.presets.map_values(
            |x: crate::soundfont::PresetV| x.bag_index,
        ));
    }
    let mut r: Vec<u16> = Vec::new();
    if bs > be {
        return r;
    }
    assert(be <= sf@.pbags.len());
    let mut b = bs;
    while b < be
        invariant
            spec_wf(sf@),
            bs <= b <= be <= sf@.pbags.len(),
            bfirsts@ == sf@.pbags.map_values(|x: Bag| x.gen_ndx),
            r@ == spec_preset_refs(sf@, bs as int, b as int),
        decreases be - b,
    {
        let gs = sf.pbags[b].gen_ndx as usize;
        let ge = slice_end(&bfirsts, b, sf.pgens.len());
        assert(ge <= sf@.pgens.len());
        let z = zone_slice(&sf.pgens, gs, ge);
        assert(z@ == spec_pzone(sf@, b as int));
        let mut refs = irefs_of(&z);
        r.append(&mut refs);
        b = b + 1;
        assert(r@ =~= spec_preset_refs(sf@, bs as int, b as int));
    }
    r
}

/// Collects the zones of every referenced instrument, in reference order.
fn zones_of_refs(sf: &SoundFont, refs: &Vec<u16>) -> (r: Vec<Vec<Generator>>)
    requires
        spec_wf(sf@),
    ensures
        r@.map_values(|z: Vec<Generator>| z@) == spec_zones_of_refs(sf@, refs@),
{
    let mut r: Vec<Vec<Generator>> = Vec::new();
    let mut i: usize = 0;
    while i < refs.len()
        invariant
            spec_wf(sf@),
            i <= refs@.len(),
            r@.map_values(|z: Vec<Generator>| z@) == spec_zones_of_refs(
                sf@,
                refs@.take(i as int),
            ),
        decreases refs@.len() - i,
    {
        proof {
            assert(refs@.take(i as int + 1).drop_last() =~= refs@.take(i as int));
        }
        let ix = refs[i] as usize;
        if ix < sf.instruments.len() {
            let mut zs = get_instrument_zones(sf, ix);
            r.append(&mut zs);
        }
        i = i + 1;
        assert(r@.map_values(|z: Vec<Generator>| z@) =~= spec_zones_of_refs(
            sf@,
            refs@.take(i as int),
        ));
    }
    assert(refs@.take(refs@.len() as int) =~= refs@);
    r
}

/// The preset's whole candidate zone pool, in bag-discovery order.
pub fn preset_zone_pool(sf: &SoundFont, ix: usize) -> (r: Vec<Vec<Generator>>)
    requires
        spec_wf(sf@),
        ix < sf@.presets.len(),
    ensures
        r@.map_values(|z: Vec<Generator>| z@) == spec_preset_zone_pool(sf@, ix as int),
{
    let refs = preset_refs(sf, ix);
    zones_of_refs(sf, &refs)
}

// --- Reading a zone's generators ------------------------------------------------

// Within one zone each generator kind should appear at most once; when it is
// duplicated, the first occurrence in array order is authoritative, so every
// reader takes the first match.

/// The authoritative key range of a zone.
pub open spec fn spec_find_key_range(z: Seq<Generator>) -> Option<(u8, u8)>
    decreases z.len(),
{
    if z.len() == 0 {
        None
    } else {
        match z[0] {
            Generator::KeyRange(l, h) => Some((l, h)),
            _ => spec_find_key_range(z.drop_first()),
        }
    }
}

/// The authoritative sample reference of a zone.
pub open spec fn spec_find_sample_id(z: Seq<Generator>) -> Option<u16>
    decreases z.len(),
{
    if z.len() == 0 {
        None
    } else {
        match z[0] {
            Generator::SampleID(s) => Some(s),
            _ => spec_find_sample_id(z.drop_first()),
        }
    }
}

/// The authoritative loop mode of a zone.
pub open spec fn spec_find_loop_mode(z: Seq<Generator>) -> Option<LoopMode>
    decreases z.len(),
{
    if z.len() == 0 {
        None
    } else {
        match z[0] {
            Generator::SampleModes(m) => Some(m),
            _ => spec_find_loop_mode(z.drop_first()),
        }
    }
}

/// The authoritative root key override of a zone.
pub open spec fn spec_find_root_key(z: Seq<Generator>) -> Option<i16>
    decreases z.len(),
{
    if z.len() == 0 {
        None
    } else {
        match z[0] {
            Generator::OverridingRootKey(k) => Some(k),
            _ => spec_find_root_key(z.drop_first()),
        }
    }
}

/// The authoritative fine tuning of a zone, in cents.
pub open spec fn spec_find_fine_tune(z: Seq<Generator>) -> Option<i16>
    decreases z.len(),
{
    if z.len() == 0 {
        None
    } else {
        match z[0] {
            Generator::FineTune(c) => Some(c),
            _ => spec_find_fine_tune(z.drop_first()),
        }
    }
}

/// The four volume-envelope quantities a preset averages.
#[derive(Clone, Copy, Debug, PartialEq, Eq, Structural)]
pub enum EnvKind {
    Attack,
    Decay,
    Sustain,
    Release,
}

/// The envelope payload a generator carries for the given quantity.
pub open spec fn spec_env_gen(g: Generator, k: EnvKind) -> Option<i16> {
    match (k, g) {
        (EnvKind::Attack, Generator::AttackVolEnv(v)) => Some(v),
        (EnvKind::Decay, Generator::DecayVolEnv(v)) => Some(v),
        (EnvKind::Sustain, Generator::SustainVolEnv(v)) => Some(v),
        (EnvKind::Release, Generator::ReleaseVolEnv(v)) => Some(v),
        _ => None,
    }
}

/// The authoritative envelope value of a zone for the given quantity.
pub open spec fn spec_find_env(z: Seq<Generator>, k: EnvKind) -> Option<i16>
    decreases z.len(),
{
    if z.len() == 0 {
        None
    } else if spec_env_gen(z[0], k) is Some {
        spec_env_gen(z[0], k)
    } else {
        spec_find_env(z.drop_first(), k)
    }
}

fn find_key_range(z: &Vec<Generator>, i: usize) -> (r: Option<(u8, u8)>)
    requires
        i <= z@.len(),
    ensures
        r == spec_find_key_range(z@.skip(i as int)),
    decreases z@.len() - i,
{
    if i == z.len() {
        None
    } else {
        proof {
            assert(z@.skip(i as int).drop_first() =~= z@.skip(i as int + 1));
        }
        match z[i] {
            Generator::KeyRange(l, h) => Some((l, h)),
            _ => find_key_range(z, i + 1),
        }
    }
}

fn find_sample_id(z: &Vec<Generator>, i: usize) -> (r: Option<u16>)
    requires
        i <= z@.len(),
    ensures
        r == spec_find_sample_id(z@.skip(i as int)),
    decreases z@.len() - i,
{
    if i == z.len() {
        None
    } else {
        proof {
            assert(z@.skip(i as int).drop_first() =~= z@.skip(i as int + 1));
        }
        match z[i] {
            Generator::SampleID(s) => Some(s),
            _ => find_sample_id(z, i + 1),
        }
    }
}

fn find_loop_mode(z: &Vec<Generator>, i: usize) -> (r: Option<LoopMode>)
    requires
        i <= z@.len(),
    ensures
        r == spec_find_loop_mode(z@.skip(i as int)),
    decreases z@.len() - i,
{
    if i == z.len() {
        None
    } else {
        proof {
            assert(z@.skip(i as int).drop_first() =~= z@.skip(i as int + 1));
        }
        match z[i] {
            Generator::SampleModes(m) => Some(m),
            _ => find_loop_mode(z, i + 1),
        }
    }
}

fn find_root_key(z: &Vec<Generator>, i: usize) -> (r: Option<i16>)
    requires
        i <= z@.len(),
    ensures
        r == spec_find_root_key(z@.skip(i as int)),
    decreases z@.len() - i,
{
    if i == z.len() {
        None
    } else {
        proof {
            assert(z@.skip(i as int).drop_first() =~= z@.skip(i as int + 1));
        }
        match z[i] {
            Generator::OverridingRootKey(k) => Some(k),
            _ => find_root_key(z, i + 1),
        }
    }
}

fn find_fine_tune(z: &Vec<Generator>, i: usize) -> (r: Option<i16>)
    requires
        i <= z@.len(),
    ensures
        r == spec_find_fine_tune(z@.skip(i as int)),
    decreases z@.len() - i,
{
    if i == z.len() {
        None
    } else {
        proof {
            assert(z@.skip(i as int).drop_first() =~= z@.skip(i as int + 1));
        }
        match z[i] {
            Generator::FineTune(c) => Some(c),
            _ => find_fine_tune(z, i + 1),
        }
    }
}

fn find_env(z: &Vec<Generator>, k: EnvKind, i: usize) -> (r: Option<i16>)
    requires
        i <= z@.len(),
    ensures
        r == spec_find_env(z@.skip(i as int), k),
    decreases z@.len() - i,
{
    if i == z.len() {
        None
    } else {
        proof {
            assert(z@.skip(i as int).drop_first() =~= z@.skip(i as int + 1));
        }
        let g = z[i];
        let found: Option<i16> = match (k, g) {
            (EnvKind::Attack, Generator::AttackVolEnv(v)) => Some(v),
            (EnvKind::Decay, Generator::DecayVolEnv(v)) => Some(v),
            (EnvKind::Sustain, Generator::SustainVolEnv(v)) => Some(v),
            (EnvKind::Release, Generator::ReleaseVolEnv(v)) => Some(v),
            _ => None,
        };
        match found {
            Some(v) => Some(v),
            None => find_env(z, k, i + 1),
        }
    }
}

// --- Candidate zones -----------------------------------------------------------

/// One candidate zone of the coalescer's pool: the zone's key range and its
/// resolved sample reference, root note and tuning, with its position in
/// bag-discovery order as the sort tiebreak.
#[derive(Clone, Copy, Debug, PartialEq, Eq)]
pub struct CandidateZone {
    pub low: u8,
    pub high: u8,
    pub sample: Option<u16>,
    pub root: i16,
    pub cents: Option<i16>,
    pub loop_mode: Option<LoopMode>,
    pub ord: usize,
}

/// The candidate zone resolved from one zone's generators: the key range (the
/// full keyboard when absent), the first sample reference, the root key
/// override or the referenced sample's original pitch, and tuning data.
pub open spec fn spec_candidate(sf: SoundFontV, z: Seq<Generator>, ord: int) -> CandidateZone {
    let low = match spec_find_key_range(z) {
        Some(kr) => kr.0,
        None => 0,
    };
    let high = match spec_find_key_range(z) {
        Some(kr) => kr.1,
        None => 127,
    };
    let sample = spec_find_sample_id(z);
    let root = match spec_find_root_key(z) {
        Some(rk) => rk,
        None => match sample {
            Some(s) => if (s as int) < sf.samples.len() {
                sf.samples[s as int].original_pitch as i16
            } else {
                0
            },
            None => 0,
        },
    };
    CandidateZone {
        low,
        high,
        sample,
        root,
        cents: spec_find_fine_tune(z),
        loop_mode: spec_find_loop_mode(z),
        ord: ord as usize,
    }
}

/// The candidate pool of a zone list, in bag-discovery order.
pub open spec fn spec_candidates(sf: SoundFontV, zones: Seq<Seq<Generator>>) -> Seq<
    CandidateZone,
> {
    Seq::new(zones.len(), |i: int| spec_candidate(sf, zones[i], i))
}

fn make_candidate(sf: &SoundFont, z: &Vec<Generator>, ord: usize) -> (c: CandidateZone)
    ensures
        c == spec_candidate(sf@, z@, ord as int),
{
    let kr = find_key_range(z, 0);
    let (low, high) = match kr {
        Some(lh) => lh,
        None => (0, 127),
    };
    let sample = find_sample_id(z, 0);
    let root = match find_root_key(z, 0) {
        Some(rk) => rk,
        None => match sample {
            Some(s) => {
                if (s as usize) < sf.samples.len() {
                    sf.samples[s as usize].original_pitch as i16
                } else {
                    0
                }
            },
            None => 0,
        },
    };
    let cents = find_fine_tune(z, 0);
    let loop_mode = find_loop_mode(z, 0);
    proof {
        assert(z@.skip(0) =~= z@);
    }
    CandidateZone { low, high, sample, root, cents, loop_mode, ord }
}

fn make_candidates(sf: &SoundFont, zones: &Vec<Vec<Generator>>) -> (r: Vec<CandidateZone>)
    ensures
        r@ == spec_candidates(sf@, zones@.map_values(|z: Vec<Generator>| z@)),
{
    let ghost zs = zones@.map_values(|z: Vec<Generator>| z@);
    let mut r: Vec<CandidateZone> = Vec::new();
    let mut i: usize = 0;
    while i < zones.len()
        invariant
            i <= zones@.len(),
            zs == zones@.map_values(|z: Vec<Generator>| z@),
            r@.len() == i,
            forall|j: int| 0 <= j < i ==> #[trigger] r@[j] == spec_candidate(sf@, zs[j], j),
        decreases zones@.len() - i,
    {
        let c = make_candidate(sf, &zones[i], i);
        r.push(c);
        i = i + 1;
    }
    proof {
        assert(r@ =~= spec_candidates(sf@, zs));
    }
    r
}

// --- Sorting the pool by ascending key range ------------------------------------

/// Pool order: ascending key-range low bound, then high bound, then
/// bag-discovery order.
pub open spec fn spec_cand_le(a: CandidateZone, b: CandidateZone) -> bool {
    ||| a.low < b.low
    ||| (a.low == b.low && a.high < b.high)
    ||| (a.low == b.low && a.high == b.high && a.ord <= b.ord)
}

/// Inserts a zone into a sorted pool, before the first later element.
pub open spec fn spec_insert_cand(x: CandidateZone, s: Seq<CandidateZone>) -> Seq<CandidateZone>
    decreases s.len(),
{
    if s.len() == 0 {
        seq![x]
    } else if spec_cand_le(x, s[0]) {
        seq![x] + s
    } else {
        seq![s[0]] + spec_insert_cand(x, s.drop_first())
    }
}

/// The pool sorted by insertion, stably, in pool order.
pub open spec fn spec_sort_cands(s: Seq<CandidateZone>) -> Seq<CandidateZone>
    decreases s.len(),
{
    if s.len() == 0 {
        s
    } else {
        spec_insert_cand(s[0], spec_sort_cands(s.drop_first()))
    }
}

fn cand_le(a: &CandidateZone, b: &CandidateZone) -> (r: bool)
    ensures
        r == spec_cand_le(*a, *b),
{
    a.low < b.low || (a.low == b.low && a.high < b.high) || (a.low == b.low && a.high == b.high
        && a.ord <= b.ord)
}

fn insert_cand(x: CandidateZone, v: Vec<CandidateZone>) -> (r: Vec<CandidateZone>)
    ensures
        r@ == spec_insert_cand(x, v@),
    decreases v@.len(),
{
    let ghost v0 = v@;
    if v.len() == 0 {
        let mut r: Vec<CandidateZone> = Vec::new();
        r.push(x);
        proof {
            assert(r@ =~= seq![x]);
        }
        r
    } else if cand_le(&x, &v[0]) {
        let mut r: Vec<CandidateZone> = Vec::new();
        r.push(x);
        let mut v = v;
        r.append(&mut v);
        proof {
            assert(r@ =~= seq![x] + v0);
        }
        r
    } else {
        let mut v = v;
        let h = v.remove(0);
        proof {
            assert(v@ =~= v0.drop_first());
        }
        let mut rest = insert_cand(x, v);
        let mut r: Vec<CandidateZone> = Vec::new();
        r.push(h);
        r.append(&mut rest);
        proof {
            assert(r@ =~= seq![v0[0]] + spec_insert_cand(x, v0.drop_first()));
        }
        r
    }
}

/// Sorts the candidate pool by ascending key range before coalescing; the
/// coalescer depends on zones being visitable in ascending key-range order.
pub fn sort_candidates(v: Vec<CandidateZone>) -> (r: Vec<CandidateZone>)
    ensures
        r@ == spec_sort_cands(v@),
    decreases v@.len(),
{
    let ghost v0 = v@;
    if v.len() == 0 {
        v
    } else {
        let mut v = v;
        let h = v.remove(0);
        proof {
            assert(v@ =~= v0.drop_first());
        }
        let rest = sort_candidates(v);
        insert_cand(h, rest)
    }
}


/// A pool visitable in ascending key-range order (the coalescer's
/// precondition on its input).
pub open spec fn spec_pool_sorted(s: Seq<CandidateZone>) -> bool {
    forall|i: int, j: int|
        0 <= i < j < s.len() ==> spec_cand_le(#[trigger] s[i], #[trigger] s[j])
}

/// Inserting keeps a lower bound on every element.
proof fn lemma_insert_cand_le_bound(b: CandidateZone, x: CandidateZone, s: Seq<CandidateZone>)
    requires
        spec_cand_le(b, x),
        forall|i: int| 0 <= i < s.len() ==> spec_cand_le(b, #[trigger] s[i]),
    ensures
        forall|i: int|
            0 <= i < spec_insert_cand(x, s).len() ==> spec_cand_le(
                b,
                #[trigger] spec_insert_cand(x, s)[i],
            ),
    decreases s.len(),
{
    if s.len() == 0 {
    } else if spec_cand_le(x, s[0]) {
    } else {
        assert(forall|i: int|
            0 <= i < s.drop_first().len() ==> spec_cand_le(b, #[trigger] s.drop_first()[i]));
        lemma_insert_cand_le_bound(b, x, s.drop_first());
        let r = spec_insert_cand(x, s);
        assert forall|i: int| 0 <= i < r.len() implies spec_cand_le(b, #[trigger] r[i]) by {
            if i > 0 {
                assert(r[i] == spec_insert_cand(x, s.drop_first())[i - 1]);
            }
        }
    }
}

/// Inserting into a sorted pool keeps it sorted.
proof fn lemma_insert_cand_sorted(x: CandidateZone, s: Seq<CandidateZone>)
    requires
        spec_pool_sorted(s),
    ensures
        spec_pool_sorted(spec_insert_cand(x, s)),
    decreases s.len(),
{
    let r = spec_insert_cand(x, s);
    if s.len() == 0 {
    } else if spec_cand_le(x, s[0]) {
        assert forall|i: int, j: int| 0 <= i < j < r.len() implies spec_cand_le(
            #[trigger] r[i],
            #[trigger] r[j],
        ) by {
            if i == 0 {
                assert(spec_cand_le(x, s[j - 1]));
            } else {
                assert(r[i] == s[i - 1] && r[j] == s[j - 1]);
            }
        }
    } else {
        assert(spec_pool_sorted(s.drop_first())) by {
            assert(forall|i: int, j: int|
                0 <= i < j < s.drop_first().len() ==> spec_cand_le(
                    #[trigger] s.drop_first()[i],
                    #[trigger] s.drop_first()[j],
                ));
        }
        lemma_insert_cand_sorted(x, s.drop_first());
        assert(forall|i: int|
            0 <= i < s.drop_first().len() ==> spec_cand_le(s[0], #[trigger] s.drop_first()[i]));
        lemma_insert_cand_le_bound(s[0], x, s.drop_first());
        let t = spec_insert_cand(x, s.drop_first());
        assert forall|i: int, j: int| 0 <= i < j < r.len() implies spec_cand_le(
            #[trigger] r[i],
            #[trigger] r[j],
        ) by {
            if i == 0 {
                assert(r[j] == t[j - 1]);
                assert(spec_cand_le(s[0], t[j - 1]));
            } else {
                assert(r[i] == t[i - 1] && r[j] == t[j - 1]);
            }
        }
    }
}

/// Multisets distribute over pool concatenation.
proof fn lemma_pool_multiset_add(s1: Seq<CandidateZone>, s2: Seq<CandidateZone>)
    ensures
        (s1 + s2).to_multiset() == s1.to_multiset().add(s2.to_multiset()),
    decreases s2.len(),
{
    s2.to_multiset_ensures();
    s1.to_multiset_ensures();
    if s2.len() == 0 {
        assert(s1 + s2 =~= s1);
        assert((s1 + s2).to_multiset() =~= s1.to_multiset().add(s2.to_multiset()));
    } else {
        lemma_pool_multiset_add(s1, s2.drop_last());
        assert((s1 + s2).drop_last() =~= s1 + s2.drop_last());
        assert(s1 + s2 =~= (s1 + s2.drop_last()).push(s2.last()));
        (s1 + s2.drop_last()).to_multiset_ensures();
        s2.drop_last().to_multiset_ensures();
        assert(s2.drop_last().push(s2.last()) =~= s2);
        assert((s1 + s2).to_multiset() =~= s1.to_multiset().add(s2.to_multiset()));
    }
}

/// Inserting adds exactly the one zone to the pool's multiset.
proof fn lemma_insert_cand_multiset(x: CandidateZone, s: Seq<CandidateZone>)
    ensures
        spec_insert_cand(x, s).to_multiset() == s.to_multiset().insert(x),
    decreases s.len(),
{
    s.to_multiset_ensures();
    if s.len() == 0 {
        seq![x].to_multiset_ensures();
        assert(seq![x] =~= Seq::<CandidateZone>::empty().push(x));
        Seq::<CandidateZone>::empty().to_multiset_ensures();
        assert(spec_insert_cand(x, s).to_multiset() =~= s.to_multiset().insert(x));
    } else if spec_cand_le(x, s[0]) {
        lemma_pool_multiset_add(seq![x], s);
        seq![x].to_multiset_ensures();
        assert(seq![x] =~= Seq::<CandidateZone>::empty().push(x));
        Seq::<CandidateZone>::empty().to_multiset_ensures();
        assert((seq![x] + s).to_multiset() =~= s.to_multiset().insert(x));
    } else {
        lemma_insert_cand_multiset(x, s.drop_first());
        lemma_pool_multiset_add(seq![s[0]], spec_insert_cand(x, s.drop_first()));
        lemma_pool_multiset_add(seq![s[0]], s.drop_first());
        assert(seq![s[0]] + s.drop_first() =~= s);
        seq![s[0]].to_multiset_ensures();
        assert(seq![s[0]] =~= Seq::<CandidateZone>::empty().push(s[0]));
        Seq::<CandidateZone>::empty().to_multiset_ensures();
        s.drop_first().to_multiset_ensures();
        assert(spec_insert_cand(x, s).to_multiset() =~= s.to_multiset().insert(x));
    }
}

/// The sorted pool is a permutation of the raw pool, visitable in ascending
/// key-range order: what the coalescer's grouping pass depends on.
pub proof fn lemma_sort_cands_sorted_permutation(s: Seq<CandidateZone>)
    ensures
        spec_pool_sorted(spec_sort_cands(s)),
        spec_sort_cands(s).to_multiset() == s.to_multiset(),
    decreases s.len(),
{
    s.to_multiset_ensures();
    if s.len() != 0 {
        lemma_sort_cands_sorted_permutation(s.drop_first());
        lemma_insert_cand_sorted(s[0], spec_sort_cands(s.drop_first()));
        lemma_insert_cand_multiset(s[0], spec_sort_cands(s.drop_first()));
        s.drop_first().to_multiset_ensures();
        lemma_pool_multiset_add(seq![s[0]], s.drop_first());
        seq![s[0]].to_multiset_ensures();
        assert(seq![s[0]] =~= Seq::<CandidateZone>::empty().push(s[0]));
        Seq::<CandidateZone>::empty().to_multiset_ensures();
        assert(seq![s[0]] + s.drop_first() =~= s);
        assert(spec_sort_cands(s).to_multiset() =~= s.to_multiset());
    }
}

// --- Coalescing zones into oscillator groups ------------------------------------

/// One sample-range entry of an oscillator group: a key span playing one
/// sample at one root note, with the tuning and loop mode of the zone that
/// opened the entry.
#[derive(Clone, Copy, Debug, PartialEq, Eq)]
pub struct RangeEntry {
    pub low: u8,
    pub high: u8,
    pub sample: u16,
    pub root: i16,
    pub cents: Option<i16>,
    pub loop_mode: Option<LoopMode>,
}

/// A group's entries after one more zone: a zone without a sample reference
/// is skipped (though it still moved the group's running high bound); a zone
/// matching the last entry's sample and root extends that entry's high bound;
/// any other zone opens a new entry.
pub open spec fn spec_add_zone(entries: Seq<RangeEntry>, z: CandidateZone) -> Seq<RangeEntry> {
    match z.sample {
        None => entries,
        Some(sid) => {
            if entries.len() > 0 && entries.last().sample == sid && entries.last().root
                == z.root {
                entries.update(
                    entries.len() - 1,
                    RangeEntry { high: z.high, ..entries.last() },
                )
            } else {
                entries.push(
                    RangeEntry {
                        low: z.low,
                        high: z.high,
                        sample: sid,
                        root: z.root,
                        cents: z.cents,
                        loop_mode: z.loop_mode,
                    },
                )
            }
        },
    }
}

/// The first remaining zone, scanning from `i`, whose key-range low bound is
/// one above the group's running high bound; -1 when a full pass finds none.
pub open spec fn spec_find_adjacent(rem: Seq<CandidateZone>, high: u8, i: int) -> int
    decreases rem.len() - i,
{
    if i < 0 || i >= rem.len() {
        -1
    } else if rem[i].low as int == high as int + 1 {
        i
    } else {
        spec_find_adjacent(rem, high, i + 1)
    }
}

/// One oscillator group: starting from the seeded entries and running high
/// bound, repeatedly take the first remaining adjacent zone until a full
/// pass finds none. Returns the group's entries and the zones still left.
pub open spec fn spec_build_group(
    rem: Seq<CandidateZone>,
    entries: Seq<RangeEntry>,
    high: u8,
) -> (Seq<RangeEntry>, Seq<CandidateZone>)
    decreases rem.len(),
{
    let f = spec_find_adjacent(rem, high, 0);
    if f < 0 || f >= rem.len() {
        (entries, rem)
    } else {
        let z = rem[f];
        spec_build_group(rem.remove(f), spec_add_zone(entries, z), z.high)
    }
}

/// A group never returns more zones than it was given.
proof fn lemma_build_group_len(rem: Seq<CandidateZone>, entries: Seq<RangeEntry>, high: u8)
    ensures
        spec_build_group(rem, entries, high).1.len() <= rem.len(),
    decreases rem.len(),
{
    let f = spec_find_adjacent(rem, high, 0);
    if !(f < 0 || f >= rem.len()) {
        lemma_build_group_len(rem.remove(f), spec_add_zone(entries, rem[f]), rem[f].high);
    }
}

/// The oscillator groups of a sorted pool: while zones remain, the first
/// remaining zone seeds a new group, which then absorbs adjacent zones.
pub open spec fn spec_build_groups(rem: Seq<CandidateZone>) -> Seq<Seq<RangeEntry>>
    decreases rem.len(),
    via spec_build_groups_decreases
{
    if rem.len() == 0 {
        Seq::empty()
    } else {
        let seed = rem[0];
        let gr = spec_build_group(
            rem.drop_first(),
            spec_add_zone(Seq::empty(), seed),
            seed.high,
        );
        seq![gr.0] + spec_build_groups(gr.1)
    }
}

#[via_fn]
proof fn spec_build_groups_decreases(rem: Seq<CandidateZone>) {
    if rem.len() != 0 {
        lemma_build_group_len(
            rem.drop_first(),
            spec_add_zone(Seq::empty(), rem[0]),
            rem[0].high,
        );
    }
}

fn find_adjacent(rem: &Vec<CandidateZone>, high: u8, i: usize) -> (r: Option<usize>)
    requires
        i <= rem@.len(),
    ensures
        match r {
            Some(k) => k < rem@.len() && k == spec_find_adjacent(rem@, high, i as int),
            None => spec_find_adjacent(rem@, high, i as int) == -1,
        },
    decreases rem@.len() - i,
{
    if i == rem.len() {
        None
    } else if rem[i].low as u16 == high as u16 + 1 {
        Some(i)
    } else {
        find_adjacent(rem, high, i + 1)
    }
}

fn add_zone(entries: &mut Vec<RangeEntry>, z: CandidateZone)
    ensures
        final(entries)@ == spec_add_zone(old(entries)@, z),
{
    match z.sample {
        None => (),
        Some(sid) => {
            let n = entries.len();
            if n > 0 && entries[n - 1].sample == sid && entries[n - 1].root == z.root {
                let last = entries[n - 1];
                let _ = entries.pop();
                entries.push(RangeEntry { high: z.high, ..last });
                proof {
                    assert(entries@ =~= spec_add_zone(old(entries)@, z));
                }
            } else {
                entries.push(
                    RangeEntry {
                        low: z.low,
                        high: z.high,
                        sample: sid,
                        root: z.root,
                        cents: z.cents,
                        loop_mode: z.loop_mode,
                    },
                );
            }
        },
    }
}

fn build_group(rem: Vec<CandidateZone>, entries: Vec<RangeEntry>, high: u8) -> (r: (
    Vec<RangeEntry>,
    Vec<CandidateZone>,
))
    ensures
        r.0@ == spec_build_group(rem@, entries@, high).0,
        r.1@ == spec_build_group(rem@, entries@, high).1,
    decreases rem@.len(),
{
    match find_adjacent(&rem, high, 0) {
        None => (entries, rem),
        Some(f) => {
            let mut rem = rem;
            let mut entries = entries;
            let z = rem.remove(f);
            add_zone(&mut entries, z);
            build_group(rem, entries, z.high)
        },
    }
}

/// Coalesces a sorted candidate pool into oscillator groups, each an ordered
/// list of sample-range entries.
pub fn coalesce_zones(pool: Vec<CandidateZone>) -> (r: Vec<Vec<RangeEntry>>)
    ensures
        r@.map_values(|g: Vec<RangeEntry>| g@) == spec_build_groups(pool@),
    decreases pool@.len(),
{
    let ghost p0 = pool@;
    if pool.len() == 0 {
        let r: Vec<Vec<RangeEntry>> = Vec::new();
        proof {
            assert(r@.map_values(|g: Vec<RangeEntry>| g@) =~= spec_build_groups(p0));
        }
        r
    } else {
        let mut pool = pool;
        let seed = pool.remove(0);
        proof {
            assert(pool@ =~= p0.drop_first());
        }
        let mut entries: Vec<RangeEntry> = Vec::new();
        add_zone(&mut entries, seed);
        let (g, rest) = build_group(pool, entries, seed.high);
        proof {
            lemma_build_group_len(p0.drop_first(), spec_add_zone(Seq::empty(), seed), seed.high);
        }
        let mut groups = coalesce_zones(rest);
        let mut r: Vec<Vec<RangeEntry>> = Vec::new();
        r.push(g);
        r.append(&mut groups);
        proof {
            assert(r@.map_values(|g2: Vec<RangeEntry>| g2@) =~= spec_build_groups(p0));
        }
        r
    }
}

// --- Envelope value collection and averaging -------------------------------------

/// The envelope values of the given quantity contributed by each zone that
/// defines it, in pool order.
pub open spec fn spec_env_values(zones: Seq<Seq<Generator>>, k: EnvKind) -> Seq<i16>
    decreases zones.len(),
{
    if zones.len() == 0 {
        Seq::empty()
    } else {
        spec_env_values(zones.drop_last(), k) + (match spec_find_env(zones.last(), k) {
            Some(v) => seq![v],
            None => Seq::empty(),
        })
    }
}

/// Collects the envelope values of one quantity across all zones.
fn collect_env_values(zones: &Vec<Vec<Generator>>, k: EnvKind) -> (r: Vec<i16>)
    ensures
        r@ == spec_env_values(zones@.map_values(|z: Vec<Generator>| z@), k),
{
    let ghost zs = zones@.map_values(|z: Vec<Generator>| z@);
    let mut r: Vec<i16> = Vec::new();
    let mut i: usize = 0;
    while i < zones.len()
        invariant
            i <= zones@.len(),
            zs == zones@.map_values(|z: Vec<Generator>| z@),
            r@ == spec_env_values(zs.take(i as int), k),
        decreases zones@.len() - i,
    {
        proof {
            assert(zs.take(i as int + 1).drop_last() =~= zs.take(i as int));
            assert(zones@[i as int]@.skip(0) =~= zs[i as int]);
        }
        match find_env(&zones[i], k, 0) {
            Some(v) => {
                r.push(v);
            },
            None => (),
        }
        i = i + 1;
        assert(r@ =~= spec_env_values(zs.take(i as int), k));
    }
    assert(zs.take(zs.len() as int) =~= zs);
    r
}

// --- Timecents to microseconds ---------------------------------------------------

/// The interpolation anchors for the fractional octave part: 2^(i/16) scaled
/// by 2^16, for i in 0..=16.
pub open spec fn spec_frac16() -> Seq<u64> {
    seq![
        65536u64, 68438, 71468, 74632, 77936, 81387, 84990, 88752, 92682, 96785, 101070,
        105545, 110218, 115098, 120194, 125515, 131072,
    ]
}

fn frac16_vec() -> (v: Vec<u64>)
    ensures
        v@ == spec_frac16(),
{
    let mut v: Vec<u64> = Vec::new();
    v.push(65536);
    v.push(68438);
    v.push(71468);
    v.push(74632);
    v.push(77936);
    v.push(81387);
    v.push(84990);
    v.push(88752);
    v.push(92682);
    v.push(96785);
    v.push(101070);
    v.push(105545);
    v.push(110218);
    v.push(115098);
    v.push(120194);
    v.push(125515);
    v.push(131072);
    proof {
        assert(v@ =~= spec_frac16());
    }
    v
}

/// An absolute timecents value as microseconds: 10^6 * 2^(tc / 1200), in
/// fixed point with linear interpolation between sixteenth-octave anchors.
/// The input is clamped to the format's useful range, -12000 (about one
/// millisecond) to 8000 (about 102 seconds).
pub open spec fn spec_timecents_to_micros(tc: i16) -> u64 {
    let t: int = if tc < -12000 {
        -12000
    } else if tc > 8000 {
        8000
    } else {
        tc as int
    };
    let u = t + 12000;
    let q = u / 1200;
    let r = u % 1200;
    let i = r / 75;
    let rem = r % 75;
    let lo0 = spec_frac16()[i] as int;
    let hi0 = spec_frac16()[i + 1] as int;
    let lo: int = if lo0 > 131072 {
        131072
    } else {
        lo0
    };
    let hi: int = if hi0 > 131072 {
        131072
    } else {
        hi0
    };
    let diff: int = if hi >= lo {
        hi - lo
    } else {
        0
    };
    let frac = lo + diff * rem / 75;
    ((1_000_000 * frac) / vstd::arithmetic::power2::pow2((26 - q) as nat) as int) as u64
}

/// The ceiling of the microsecond curve: 10^6 * 2^18 / 2^10.
pub const MAX_ENV_MICROS: u64 = 256_000_000;

fn timecents_to_micros(tc: i16) -> (r: u64)
    ensures
        r == spec_timecents_to_micros(tc),
        r <= MAX_ENV_MICROS,
{
    let t: i32 = if tc < -12000 {
        -12000
    } else if tc > 8000 {
        8000
    } else {
        tc as i32
    };
    let u: u32 = (t + 12000) as u32;
    let q: u32 = u / 1200;
    let rm: u32 = u % 1200;
    let i: usize = (rm / 75) as usize;
    let rem: u64 = (rm % 75) as u64;
    let table = frac16_vec();
    assert(i + 1 < table@.len());
    let lo0: u64 = table[i];
    let hi0: u64 = table[i + 1];
    let lo: u64 = if lo0 > 131072 {
        131072
    } else {
        lo0
    };
    let hi: u64 = if hi0 > 131072 {
        131072
    } else {
        hi0
    };
    let diff: u64 = if hi >= lo {
        hi - lo
    } else {
        0
    };
    assert(diff * rem <= 131072 * 75) by (nonlinear_arith)
        requires
            diff <= 131072,
            rem < 75,
    ;
    let frac: u64 = lo + diff * rem / 75;
    assert(frac <= 262144) by {
        vstd::arithmetic::div_mod::lemma_div_is_ordered(
            (diff * rem) as int,
            131072int * 75,
            75,
        );
    }
    let shift: u32 = 26 - q;
    assert(10 <= shift <= 26);
    let divisor: u64 = 1u64 << shift;
    proof {
        vstd::arithmetic::power2::lemma2_to64();
        vstd::bits::lemma_u64_pow2_no_overflow(shift as nat);
        assert(1u64 * vstd::arithmetic::power2::pow2(shift as nat) == vstd::arithmetic::power2::pow2(shift as nat)) by (nonlinear_arith);
        vstd::bits::lemma_u64_shl_is_mul(1u64, shift as u64);
        assert(divisor as int == vstd::arithmetic::power2::pow2(shift as nat));
        if shift > 10 {
            vstd::arithmetic::power2::lemma_pow2_strictly_increases(10, shift as nat);
        }
    }
    let micros: u64 = (1_000_000 * frac) / divisor;
    proof {
        vstd::arithmetic::div_mod::lemma_div_is_ordered_by_denominator(
            (1_000_000 * frac) as int,
            1024,
            divisor as int,
        );
        vstd::arithmetic::div_mod::lemma_div_is_ordered(
            (1_000_000 * frac) as int,
            262144_000_000,
            1024,
        );
        assert(262144_000_000int / 1024 == 256_000_000);
    }
    micros
}

/// The total of the microsecond values of a timecents list.
pub open spec fn spec_sum_micros(s: Seq<i16>) -> int
    decreases s.len(),
{
    if s.len() == 0 {
        0
    } else {
        spec_sum_micros(s.drop_last()) + spec_timecents_to_micros(s.last()) as int
    }
}

/// The arithmetic mean of a timecents list, in microseconds; zero when the
/// list is empty.
pub open spec fn spec_mean_micros(s: Seq<i16>) -> int {
    if s.len() == 0 {
        0
    } else {
        spec_sum_micros(s) / (s.len() as int)
    }
}

/// Averages a list of timecents values in the microsecond domain. An empty
/// list averages to zero rather than failing.
pub fn mean_micros(values: &Vec<i16>) -> (r: u64)
    ensures
        r as int == spec_mean_micros(values@),
        r <= MAX_ENV_MICROS,
{
    if values.len() == 0 {
        return 0;
    }
    let mut sum: u128 = 0;
    let mut i: usize = 0;
    while i < values.len()
        invariant
            i <= values@.len(),
            sum as int == spec_sum_micros(values@.take(i as int)),
            sum <= (i as u128) * (MAX_ENV_MICROS as u128),
        decreases values@.len() - i,
    {
        proof {
            assert(values@.take(i as int + 1).drop_last() =~= values@.take(i as int));
            assert((i as u128 + 1) * (MAX_ENV_MICROS as u128) == (i as u128) * (
            MAX_ENV_MICROS as u128) + MAX_ENV_MICROS) by (nonlinear_arith);
            assert((i as u128) * (MAX_ENV_MICROS as u128) <= (u128::MAX - MAX_ENV_MICROS))
                by (nonlinear_arith)
                requires
                    i < 0x1_0000_0000_0000_0000u128,
            ;
        }
        let m = timecents_to_micros(values[i]);
        sum = sum + m as u128;
        i = i + 1;
    }
    assert(values@.take(values@.len() as int) =~= values@);
    let n = values.len() as u128;
    let mean = sum / n;
    proof {
        vstd::arithmetic::div_mod::lemma_div_is_ordered(
            sum as int,
            (n * (MAX_ENV_MICROS as u128)) as int,
            n as int,
        );
        vstd::arithmetic::div_mod::lemma_div_multiples_vanish(
            MAX_ENV_MICROS as int,
            n as int,
        );
        assert((n * (MAX_ENV_MICROS as u128)) as int == (n as int) * (MAX_ENV_MICROS as int));
    }
    mean as u64
}

/// The total of a centibel list.
pub open spec fn spec_sum_cb(s: Seq<i16>) -> int
    decreases s.len(),
{
    if s.len() == 0 {
        0
    } else {
        spec_sum_cb(s.drop_last()) + s.last() as int
    }
}

/// The arithmetic mean of a centibel list, truncated toward zero; zero when
/// the list is empty.
pub open spec fn spec_mean_cb(s: Seq<i16>) -> int {
    if s.len() == 0 {
        0
    } else {
        let sum = spec_sum_cb(s);
        if sum >= 0 {
            sum / (s.len() as int)
        } else {
            -((-sum) / (s.len() as int))
        }
    }
}

/// Averages a list of centibel values. An empty list averages to zero rather
/// than failing.
pub fn mean_centibels(values: &Vec<i16>) -> (r: i64)
    ensures
        r as int == spec_mean_cb(values@),
        -0x8000 <= r <= 0x7FFF,
{
    if values.len() == 0 {
        return 0;
    }
    let mut sum: i128 = 0;
    let mut i: usize = 0;
    while i < values.len()
        invariant
            i <= values@.len(),
            sum as int == spec_sum_cb(values@.take(i as int)),
            -(i as int) * 0x8000 <= sum as int <= (i as int) * 0x7FFF,
        decreases values@.len() - i,
    {
        proof {
            assert(values@.take(i as int + 1).drop_last() =~= values@.take(i as int));
            assert((i as int + 1) * 0x8000 == (i as int) * 0x8000 + 0x8000) by (nonlinear_arith);
            assert((i as int + 1) * 0x7FFF == (i as int) * 0x7FFF + 0x7FFF) by (nonlinear_arith);
            assert((i as int) * 0x8000 < 0x8000_0000_0000_0000_0000i128) by (nonlinear_arith)
                requires
                    i < 0x1_0000_0000_0000_0000,
            ;
            assert((i as int) * 0x7FFF < 0x8000_0000_0000_0000_0000i128) by (nonlinear_arith)
                requires
                    i < 0x1_0000_0000_0000_0000,
            ;
        }
        sum = sum + values[i] as i128;
        i = i + 1;
    }
    assert(values@.take(values@.len() as int) =~= values@);
    let n = values.len() as u128;
    let ghost ni = n as int;
    if sum >= 0 {
        let mean = (sum as u128) / n;
        proof {
            vstd::arithmetic::div_mod::lemma_div_is_ordered(
                sum as int,
                ni * 0x7FFF,
                ni,
            );
            vstd::arithmetic::div_mod::lemma_div_multiples_vanish(0x7FFF, ni);
        }
        mean as i64
    } else {
        let mean = ((-sum) as u128) / n;
        proof {
            vstd::arithmetic::div_mod::lemma_div_is_ordered(
                (-sum) as int,
                ni * 0x8000,
                ni,
            );
            vstd::arithmetic::div_mod::lemma_div_multiples_vanish(0x8000, ni);
        }
        -(mean as i64)
    }
}


// --- Assembling the patch --------------------------------------------------------

/// Saturating difference of sample offsets.
pub open spec fn spec_sat_sub(a: u32, b: u32) -> u32 {
    if a >= b {
        (a - b) as u32
    } else {
        0
    }
}

/// The sample file reference written into the patch: the sample's name, made
/// file-safe, under the sample folder.
pub open spec fn spec_file_name(sf: SoundFontV, sid: u16, folder: Seq<char>) -> Seq<char> {
    let name = if (sid as int) < sf.samples.len() {
        sf.samples[sid as int].name
    } else {
        Seq::empty()
    };
    folder + "/"@ + crate::soundfont::spec_safe_name(name) + ".wav"@
}

/// The playback window of a sample assignment: sample start and end relative
/// to the sample's own start, with loop points only when the zone loops.
pub open spec fn spec_zone_elem(sf: SoundFontV, sid: u16, lm: LoopMode) -> Zone {
    if (sid as int) < sf.samples.len() {
        let smp = sf.samples[sid as int];
        Zone {
            start_sample_pos: 0,
            end_sample_pos: spec_sat_sub(smp.end, smp.start),
            start_loop_pos: if lm != LoopMode::NoLoop {
                Some(spec_sat_sub(smp.start_loop, smp.start))
            } else {
                None
            },
            end_loop_pos: if lm != LoopMode::NoLoop {
                Some(spec_sat_sub(smp.end_loop, smp.start))
            } else {
                None
            },
        }
    } else {
        spec_zone_default()
    }
}

/// The first loop mode any of the group's entries carries.
pub open spec fn spec_first_loop_mode(g: Seq<RangeEntry>) -> Option<LoopMode>
    decreases g.len(),
{
    if g.len() == 0 {
        None
    } else if g[0].loop_mode is Some {
        g[0].loop_mode
    } else {
        spec_first_loop_mode(g.drop_first())
    }
}

/// The oscillator's loop-mode attribute: set when the group's first declared
/// loop mode actually loops.
pub open spec fn spec_osc_loop_attr(g: Seq<RangeEntry>) -> Option<i32> {
    match spec_first_loop_mode(g) {
        Some(LoopMode::ContinuousLoop) => Some(2),
        Some(LoopMode::ReleaseLoop) => Some(2),
        _ => None,
    }
}

/// One serialized sample range of a multi-entry oscillator. Only the last
/// entry omits its upper key bound: the format defines the final entry as
/// open-ended upward.
pub open spec fn spec_range_of_entry(
    sf: SoundFontV,
    e: RangeEntry,
    folder: Seq<char>,
    is_last: bool,
) -> SampleRangeV {
    SampleRangeV {
        range_top_note: if is_last {
            None
        } else {
            Some(e.high as i32)
        },
        transpose: Some((60 - e.root) as i32),
        cents: match e.cents {
            Some(c) => Some(c as i32),
            None => None,
        },
        file_name: Some(spec_file_name(sf, e.sample, folder)),
        zone: spec_zone_elem(
            sf,
            e.sample,
            match e.loop_mode {
                Some(m) => m,
                None => LoopMode::NoLoop,
            },
        ),
    }
}

/// The oscillator slot built from one group. A group with exactly one entry
/// has that entry's fields promoted onto the oscillator itself; any other
/// group keeps a nested ordered range list.
pub open spec fn spec_osc_of_group(sf: SoundFontV, g: Seq<RangeEntry>, folder: Seq<char>) -> OscV {
    let base = OscV {
        osc_type: OscType::Sample,
        transpose: None,
        cents: None,
        retrig_phase: None,
        file_name: None,
        loop_mode: spec_osc_loop_attr(g),
        reversed: Some(0),
        time_stretch_enable: Some(0),
        time_stretch_amount: Some(0),
        sample_ranges: None,
        zone: None,
    };
    if g.len() == 1 {
        let e = g[0];
        OscV {
            transpose: Some((60 - e.root) as i32),
            cents: match e.cents {
                Some(c) => Some(c as i32),
                None => None,
            },
            file_name: Some(spec_file_name(sf, e.sample, folder)),
            zone: Some(
                spec_zone_elem(
                    sf,
                    e.sample,
                    match e.loop_mode {
                        Some(m) => m,
                        None => LoopMode::NoLoop,
                    },
                ),
            ),
            ..base
        }
    } else {
        OscV {
            sample_ranges: Some(
                Seq::new(g.len(), |i: int| spec_range_of_entry(sf, g[i], folder, i == g.len() - 1)),
            ),
            ..base
        }
    }
}

/// The samples one group asks to have written out, with their loop modes.
pub open spec fn spec_jobs_of_group(g: Seq<RangeEntry>) -> Seq<(u16, LoopMode)> {
    Seq::new(
        g.len(),
        |i: int|
            (
                g[i].sample,
                match g[i].loop_mode {
                    Some(m) => m,
                    None => LoopMode::NoLoop,
                },
            ),
    )
}

/// The samples the whole conversion asks to have written out: those of the
/// at most two retained groups.
pub open spec fn spec_sample_jobs(groups: Seq<Seq<RangeEntry>>) -> Seq<(u16, LoopMode)> {
    (if groups.len() >= 1 {
        spec_jobs_of_group(groups[0])
    } else {
        Seq::empty()
    }) + (if groups.len() >= 2 {
        spec_jobs_of_group(groups[1])
    } else {
        Seq::empty()
    })
}

/// The warning naming a preset whose zones coalesced onto more groups than
/// the Deluge's two oscillator slots.
pub open spec fn spec_warning_text(name: Seq<char>) -> Seq<char> {
    name + " has more osc than the deluge has, need to select"@
}

/// The conversion's warnings: exactly one, naming the preset, when more than
/// two groups were discovered; none otherwise.
pub open spec fn spec_warnings(sf: SoundFontV, ix: int, groups: Seq<Seq<RangeEntry>>) -> Seq<
    Seq<char>,
> {
    if groups.len() > 2 {
        seq![spec_warning_text(sf.presets[ix].name)]
    } else {
        Seq::empty()
    }
}

/// The transcoded amplitude envelope of a preset: each quantity is averaged
/// over the zones that define it and mapped through its calibration curve
/// into the normalized value domain.
pub open spec fn spec_envelope1(zones: Seq<Seq<Generator>>) -> Envelope {
    Envelope {
        attack: Value(
            spec_from_display_bits(
                spec_display_for_time(
                    spec_mean_micros(spec_env_values(zones, EnvKind::Attack)) as u64,
                    spec_attack_table(),
                    0,
                ),
            ),
        ),
        decay: Value(
            spec_from_display_bits(
                spec_display_for_time(
                    spec_mean_micros(spec_env_values(zones, EnvKind::Decay)) as u64,
                    spec_decay_table(),
                    0,
                ),
            ),
        ),
        sustain: Value(
            spec_from_display_bits(
                spec_display_for_level(
                    (0 - spec_mean_cb(spec_env_values(zones, EnvKind::Sustain))) as i64,
                    spec_sustain_table(),
                    0,
                ),
            ),
        ),
        release: Value(
            spec_from_display_bits(
                spec_display_for_time(
                    spec_mean_micros(spec_env_values(zones, EnvKind::Release)) as u64,
                    spec_release_table(),
                    0,
                ),
            ),
        ),
    }
}

/// The whole converted patch of preset `ix`: the factory-default patch with
/// the firmware versions pinned, the preset's name prefixed, the coalesced
/// groups on the two oscillator slots, and the transcoded envelope.
pub open spec fn spec_sound_of_preset(
    sf: SoundFontV,
    ix: int,
    folder: Seq<char>,
    prefix: Seq<char>,
) -> SoundV {
    let zones = spec_preset_zone_pool(sf, ix);
    let groups = spec_build_groups(spec_sort_cands(spec_candidates(sf, zones)));
    SoundV {
        name: prefix + sf.presets[ix].name,
        firmware_version: Some("3.1.3"@),
        earliest_compatible_firmware: Some("3.1.0-beta"@),
        osc1: if groups.len() >= 1 {
            spec_osc_of_group(sf, groups[0], folder)
        } else {
            spec_osc_default()
        },
        osc2: if groups.len() >= 2 {
            spec_osc_of_group(sf, groups[1], folder)
        } else {
            spec_osc_default()
        },
        default_params: DefaultParamsV {
            osc1_volume: Value(0x7FFFFFFF),
            osc2_volume: if groups.len() >= 2 {
                Value(0x7FFFFFFF)
            } else {
                Value(0x80000000)
            },
            envelope1: spec_envelope1(zones),
            ..spec_default_params_default()
        },
        ..spec_sound_default()
    }
}

fn sat_sub_u32(a: u32, b: u32) -> (r: u32)
    ensures
        r == spec_sat_sub(a, b),
{
    if a >= b {
        a - b
    } else {
        0
    }
}

fn file_name_for(sf: &SoundFont, sid: u16, folder: &str) -> (r: String)
    ensures
        r@ == spec_file_name(sf@, sid, folder@),
{
    let mut r = folder.to_owned();
    r.append("/");
    if (sid as usize) < sf.samples.len() {
        let safe = SoundFont::safe_name(sf.samples[sid as usize].name.as_str());
        r.append(safe.as_str());
    } else {
        proof {
            assert(crate::soundfont::spec_safe_name(Seq::empty()) =~= Seq::<char>::empty());
        }
    }
    r.append(".wav");
    proof {
        assert(r@ =~= spec_file_name(sf@, sid, folder@));
    }
    r
}

fn zone_elem_for(sf: &SoundFont, sid: u16, lm: LoopMode) -> (r: Zone)
    ensures
        r == spec_zone_elem(sf@, sid, lm),
{
    if (sid as usize) < sf.samples.len() {
        let smp = &sf.samples[sid as usize];
        let looped = match lm {
            LoopMode::NoLoop => false,
            _ => true,
        };
        Zone {
            start_sample_pos: 0,
            end_sample_pos: sat_sub_u32(smp.end, smp.start),
            start_loop_pos: if looped {
                Some(sat_sub_u32(smp.start_loop, smp.start))
            } else {
                None
            },
            end_loop_pos: if looped {
                Some(sat_sub_u32(smp.end_loop, smp.start))
            } else {
                None
            },
        }
    } else {
        Zone::default()
    }
}

fn first_loop_mode(g: &Vec<RangeEntry>, i: usize) -> (r: Option<LoopMode>)
    requires
        i <= g@.len(),
    ensures
        r == spec_first_loop_mode(g@.skip(i as int)),
    decreases g@.len() - i,
{
    if i == g.len() {
        None
    } else {
        proof {
            assert(g@.skip(i as int).drop_first() =~= g@.skip(i as int + 1));
        }
        match g[i].loop_mode {
            Some(m) => Some(m),
            None => first_loop_mode(g, i + 1),
        }
    }
}

/// Builds one oscillator slot from one coalesced group.
fn osc_of_group(sf: &SoundFont, g: &Vec<RangeEntry>, folder: &str) -> (o: Osc)
    ensures
        o@ == spec_osc_of_group(sf@, g@, folder@),
{
    proof {
        assert(g@.skip(0) =~= g@);
    }
    let loop_attr: Option<i32> = match first_loop_mode(g, 0) {
        Some(LoopMode::ContinuousLoop) => Some(2),
        Some(LoopMode::ReleaseLoop) => Some(2),
        _ => None,
    };
    let mut o = Osc {
        osc_type: OscType::Sample,
        transpose: None,
        cents: None,
        retrig_phase: None,
        file_name: None,
        loop_mode: loop_attr,
        reversed: Some(0),
        time_stretch_enable: Some(0),
        time_stretch_amount: Some(0),
        sample_ranges: None,
        zone: None,
    };
    if g.len() == 1 {
        let e = g[0];
        o.transpose = Some(60 - e.root as i32);
        o.cents = match e.cents {
            Some(c) => Some(c as i32),
            None => None,
        };
        o.file_name = Some(file_name_for(sf, e.sample, folder));
        let lm = match e.loop_mode {
            Some(m) => m,
            None => LoopMode::NoLoop,
        };
        o.zone = Some(zone_elem_for(sf, e.sample, lm));
        proof {
            assert(o@ =~= spec_osc_of_group(sf@, g@, folder@));
        }
        o
    } else {
        let mut ranges: Vec<SampleRange> = Vec::new();
        let n = g.len();
        let mut i: usize = 0;
        while i < n
            invariant
                i <= n,
                n == g@.len(),
                n != 1,
                ranges@.len() == i,
                forall|j: int|
                    0 <= j < i ==> #[trigger] ranges@[j]@ == spec_range_of_entry(
                        sf@,
                        g@[j],
                        folder@,
                        j == n - 1,
                    ),
            decreases n - i,
        {
            let e = g[i];
            let is_last = i == n - 1;
            let lm = match e.loop_mode {
                Some(m) => m,
                None => LoopMode::NoLoop,
            };
            let sr = SampleRange {
                range_top_note: if is_last {
                    None
                } else {
                    Some(e.high as i32)
                },
                transpose: Some(60 - e.root as i32),
                cents: match e.cents {
                    Some(c) => Some(c as i32),
                    None => None,
                },
                file_name: Some(file_name_for(sf, e.sample, folder)),
                zone: zone_elem_for(sf, e.sample, lm),
            };
            assert(sr@ == spec_range_of_entry(sf@, g@[i as int], folder@, i == n - 1));
            ranges.push(sr);
            i = i + 1;
        }
        o.sample_ranges = Some(SampleRanges { sample_range: ranges });
        proof {
            assert(o@.sample_ranges->Some_0 =~= spec_osc_of_group(
                sf@,
                g@,
                folder@,
            ).sample_ranges->Some_0);
            assert(o@ =~= spec_osc_of_group(sf@, g@, folder@));
        }
        o
    }
}

fn jobs_of_group(g: &Vec<RangeEntry>) -> (r: Vec<(u16, LoopMode)>)
    ensures
        r@ == spec_jobs_of_group(g@),
{
    let mut r: Vec<(u16, LoopMode)> = Vec::new();
    let mut i: usize = 0;
    while i < g.len()
        invariant
            i <= g@.len(),
            r@.len() == i,
            forall|j: int| 0 <= j < i ==> #[trigger] r@[j] == spec_jobs_of_group(g@)[j],
        decreases g@.len() - i,
    {
        let lm = match g[i].loop_mode {
            Some(m) => m,
            None => LoopMode::NoLoop,
        };
        r.push((g[i].sample, lm));
        i = i + 1;
    }
    proof {
        assert(r@ =~= spec_jobs_of_group(g@));
    }
    r
}

/// Builds the preset's transcoded amplitude envelope.
fn envelope1_of(zones: &Vec<Vec<Generator>>) -> (r: Envelope)
    ensures
        r == spec_envelope1(zones@.map_values(|z: Vec<Generator>| z@)),
{
    let attack_tcs = collect_env_values(zones, EnvKind::Attack);
    let decay_tcs = collect_env_values(zones, EnvKind::Decay);
    let sustain_cbs = collect_env_values(zones, EnvKind::Sustain);
    let release_tcs = collect_env_values(zones, EnvKind::Release);
    let attack = crate::deluge::attack_to_value(mean_micros(&attack_tcs));
    let decay = crate::deluge::decay_to_value(mean_micros(&decay_tcs));
    let sustain = crate::deluge::sustain_to_value(0 - mean_centibels(&sustain_cbs));
    let release = crate::deluge::release_to_value(mean_micros(&release_tcs));
    Envelope { attack, decay, sustain, release }
}

/// Converts one preset of a decoded bank into a Deluge voice patch. Returns
/// the patch, the list of samples to write out (with their loop modes), and
/// the warnings: exactly one warning naming the preset when more oscillator
/// groups were discovered than the Deluge's two slots, the excess groups
/// silently dropped; none otherwise. A preset with no usable zones keeps the
/// factory-default oscillator slots and raises no error.
pub fn soundfont_to_deluge(sf: &SoundFont, sample_folder: &str, ix: usize, prefix: &str) -> (r: (
    Sound,
    Vec<(u16, LoopMode)>,
    Vec<String>,
))
    requires
        spec_wf(sf@),
        ix < sf@.presets.len(),
    ensures
        r.0@ == spec_sound_of_preset(sf@, ix as int, sample_folder@, prefix@),
        r.1@ == spec_sample_jobs(
            spec_build_groups(
                spec_sort_cands(spec_candidates(sf@, spec_preset_zone_pool(sf@, ix as int))),
            ),
        ),
        r.2@.map_values(|w: String| w@) == spec_warnings(
            sf@,
            ix as int,
            spec_build_groups(
                spec_sort_cands(spec_candidates(sf@, spec_preset_zone_pool(sf@, ix as int))),
            ),
        ),
{
    let ghost zspec = spec_preset_zone_pool(sf@, ix as int);
    let ghost gspec = spec_build_groups(spec_sort_cands(spec_candidates(sf@, zspec)));
    let zones = preset_zone_pool(sf, ix);
    let cands = make_candidates(sf, &zones);
    let pool = sort_candidates(cands);
    let groups = coalesce_zones(pool);
    let env = envelope1_of(&zones);
    let mut sound = Sound::default();
    sound.firmware_version = Some("3.1.3".to_owned());
    sound.earliest_compatible_firmware = Some("3.1.0-beta".to_owned());
    let mut name = prefix.to_owned();
    name.append(sf.presets[ix].name.as_str());
    sound.name = name;
    sound.default_params.envelope1 = env;
    let mut jobs: Vec<(u16, LoopMode)> = Vec::new();
    let mut warnings: Vec<String> = Vec::new();
    assert(groups@.map_values(|g: Vec<RangeEntry>| g@) == gspec);
    if groups.len() >= 1 {
        sound.osc1 = osc_of_group(sf, &groups[0], sample_folder);
        let mut j = jobs_of_group(&groups[0]);
        jobs.append(&mut j);
    }
    if groups.len() >= 2 {
        sound.osc2 = osc_of_group(sf, &groups[1], sample_folder);
        sound.default_params.osc2_volume = Value(0x7FFFFFFF);
        let mut j = jobs_of_group(&groups[1]);
        jobs.append(&mut j);
    }
    if groups.len() > 2 {
        let mut w = sf.presets[ix].name.clone();
        w.append(" has more osc than the deluge has, need to select");
        warnings.push(w);
    }
    proof {
        assert(jobs@ =~= spec_sample_jobs(gspec));
        assert(warnings@.map_values(|w: String| w@) =~= spec_warnings(sf@, ix as int, gspec));
        assert(sound@.default_params =~= spec_sound_of_preset(
            sf@,
            ix as int,
            sample_folder@,
            prefix@,
        ).default_params);
        assert(sound@ =~= spec_sound_of_preset(sf@, ix as int, sample_folder@, prefix@));
    }
    (sound, jobs, warnings)
}

// --- Laws of the conversion -------------------------------------------------------

/// A preset whose candidate pool is empty (for one, a preset whose only
/// instrument has no zones) keeps both factory-default oscillator slots:
/// neither carries a sample assignment, and the conversion raises no error.
pub proof fn lemma_empty_pool_keeps_default_oscs(
    sf: SoundFontV,
    ix: int,
    folder: Seq<char>,
    prefix: Seq<char>,
)
    requires
        spec_preset_zone_pool(sf, ix).len() == 0,
    ensures
        spec_sound_of_preset(sf, ix, folder, prefix).osc1 == spec_osc_default(),
        spec_sound_of_preset(sf, ix, folder, prefix).osc2 == spec_osc_default(),
        spec_sound_of_preset(sf, ix, folder, prefix).osc1.file_name is None,
        spec_sound_of_preset(sf, ix, folder, prefix).osc1.sample_ranges is None,
{
    let zones = spec_preset_zone_pool(sf, ix);
    assert(spec_candidates(sf, zones) =~= Seq::<CandidateZone>::empty());
    assert(spec_sort_cands(spec_candidates(sf, zones)).len() == 0);
    assert(spec_build_groups(spec_sort_cands(spec_candidates(sf, zones))).len() == 0);
}

/// A preset with no zone contributing an attack generator averages an attack
/// of zero, which transcodes to the lowest normalized attack value; no
/// division by zero arises from the empty collection.
pub proof fn lemma_empty_attack_averages_zero(zones: Seq<Seq<Generator>>)
    requires
        spec_env_values(zones, EnvKind::Attack).len() == 0,
    ensures
        spec_mean_micros(spec_env_values(zones, EnvKind::Attack)) == 0,
        spec_envelope1(zones).attack == Value(spec_from_display_bits(0)),
        spec_envelope1(zones).attack == Value(0x8000_0000),
{
    assert(spec_display_for_time(0, spec_attack_table(), 0) == 0) by {
        assert(spec_attack_table()[0] == 700);
    }
    assert(spec_from_display_bits(0) == 0x8000_0000u32) by {
        assert(crate::deluge::round_div((-25int) * 0x8000_0000, 25) == -0x8000_0000) by {
            vstd::arithmetic::div_mod::lemma_fundamental_div_mod(25int * 0x8000_0000 + 12, 25);
        }
    }
}


// --- Readable bank reports ---------------------------------------------------------

/// The modulator count of instrument bag `b`.
pub open spec fn spec_ibag_mod_count(sf: SoundFontV, b: int) -> int {
    let ms = sf.ibags[b].mod_ndx as int;
    let me = spec_slice_end(sf.ibags.map_values(|x: Bag| x.mod_ndx), b, sf.imods.len() as int);
    if ms <= me {
        me - ms
    } else {
        0
    }
}

/// The modulator count of preset bag `b`.
pub open spec fn spec_pbag_mod_count(sf: SoundFontV, b: int) -> int {
    let ms = sf.pbags[b].mod_ndx as int;
    let me = spec_slice_end(sf.pbags.map_values(|x: Bag| x.mod_ndx), b, sf.pmods.len() as int);
    if ms <= me {
        me - ms
    } else {
        0
    }
}

/// One report line per generator of a zone.
pub open spec fn spec_gen_lines(z: Seq<Generator>) -> Seq<Seq<char>>
    decreases z.len(),
{
    if z.len() == 0 {
        Seq::empty()
    } else {
        spec_gen_lines(z.drop_last()) + seq![
            "  "@ + crate::soundfont::spec_generator_text(z.last()),
        ]
    }
}

/// The report lines of one instrument zone: a zone header, its generators,
/// and its modulator count.
pub open spec fn spec_izone_lines(sf: SoundFontV, bs: int, b: int) -> Seq<Seq<char>> {
    seq!["Instrument zone "@ + crate::text::dec_int(b - bs) + ":"@] + spec_gen_lines(
        spec_izone(sf, b),
    ) + seq!["  modulators: "@ + crate::text::dec_int(spec_ibag_mod_count(sf, b))]
}

/// The report lines of the instrument zones in `[bs, b)`.
pub open spec fn spec_izones_lines(sf: SoundFontV, bs: int, b: int) -> Seq<Seq<char>>
    decreases b - bs,
{
    if b <= bs {
        Seq::empty()
    } else {
        spec_izones_lines(sf, bs, b - 1) + spec_izone_lines(sf, bs, b - 1)
    }
}

/// The report lines of one instrument: its name, then its zones.
pub open spec fn spec_dump_instrument_lines(sf: SoundFontV, ix: int) -> Seq<Seq<char>> {
    let bs = sf.instruments[ix].bag_index as int;
    let be = spec_slice_end(
        sf.instruments.map_values(|x: crate::soundfont::InstrumentV| x.bag_index),
        ix,
        sf.ibags.len() as int,
    );
    seq!["Instrument: "@ + sf.instruments[ix].name] + (if bs <= be <= sf.ibags.len() {
        spec_izones_lines(sf, bs, be)
    } else {
        Seq::empty()
    })
}

/// One report fragment per preset-zone generator: an instrument reference
/// expands into that instrument's whole report.
pub open spec fn spec_pgen_lines(sf: SoundFontV, z: Seq<Generator>) -> Seq<Seq<char>>
    decreases z.len(),
{
    if z.len() == 0 {
        Seq::empty()
    } else {
        spec_pgen_lines(sf, z.drop_last()) + (match z.last() {
            Generator::Instrument(ix) => if (ix as int) < sf.instruments.len() {
                spec_dump_instrument_lines(sf, ix as int)
            } else {
                seq!["  "@ + crate::soundfont::spec_generator_text(z.last())]
            },
            _ => seq!["  "@ + crate::soundfont::spec_generator_text(z.last())],
        })
    }
}

/// The report lines of one preset zone.
pub open spec fn spec_pzone_lines(sf: SoundFontV, bs: int, b: int) -> Seq<Seq<char>> {
    seq!["Preset zone "@ + crate::text::dec_int(b - bs) + ":"@] + spec_pgen_lines(
        sf,
        spec_pzone(sf, b),
    ) + seq!["  modulators: "@ + crate::text::dec_int(spec_pbag_mod_count(sf, b))]
}

/// The report lines of the preset zones in `[bs, b)`.
pub open spec fn spec_pzones_lines(sf: SoundFontV, bs: int, b: int) -> Seq<Seq<char>>
    decreases b - bs,
{
    if b <= bs {
        Seq::empty()
    } else {
        spec_pzones_lines(sf, bs, b - 1) + spec_pzone_lines(sf, bs, b - 1)
    }
}

/// The report lines of one preset: name, program and bank numbers, then its
/// zones, with referenced instruments expanded in place.
pub open spec fn spec_dump_preset_lines(sf: SoundFontV, ix: int) -> Seq<Seq<char>> {
    let bs = sf.presets[ix].bag_index as int;
    let be = spec_slice_end(
        sf.presets.map_values(|x: crate::soundfont::PresetV| x.bag_index),
        ix,
        sf.pbags.len() as int,
    );
    seq![
        "Name: "@ + sf.presets[ix].name,
        "Pos: "@ + crate::text::dec_int(sf.presets[ix].preset as int),
        "Bank: "@ + crate::text::dec_int(sf.presets[ix].bank as int),
    ] + (if bs <= be <= sf.pbags.len() {
        spec_pzones_lines(sf, bs, be)
    } else {
        Seq::empty()
    })
}

/// The report lines of the presets before `i` (the terminal record is never
/// reported).
pub open spec fn spec_presets_lines_upto(sf: SoundFontV, i: int) -> Seq<Seq<char>>
    decreases i,
{
    if i <= 0 {
        Seq::empty()
    } else {
        spec_presets_lines_upto(sf, i - 1) + spec_dump_preset_lines(sf, i - 1)
    }
}

/// The report lines of a whole bank: a header and every preset but the
/// terminal record.
pub open spec fn spec_dump_lines(sf: SoundFontV) -> Seq<Seq<char>> {
    seq!["Presets:"@] + spec_presets_lines_upto(sf, sf.presets.len() - 1)
}

/// The text of a list of report lines.
pub open spec fn spec_lines_of(v: Seq<String>) -> Seq<Seq<char>>
    decreases v.len(),
{
    if v.len() == 0 {
        Seq::empty()
    } else {
        spec_lines_of(v.drop_last()).push(v.last()@)
    }
}

/// Line text distributes over concatenation of line lists.
proof fn lemma_lines_of_append(a: Seq<String>, b: Seq<String>)
    ensures
        spec_lines_of(a + b) == spec_lines_of(a) + spec_lines_of(b),
    decreases b.len(),
{
    if b.len() == 0 {
        assert(a + b =~= a);
        assert(spec_lines_of(a) + spec_lines_of(b) =~= spec_lines_of(a));
    } else {
        lemma_lines_of_append(a, b.drop_last());
        assert((a + b).drop_last() =~= a + b.drop_last());
        assert((a + b).last() == b.last());
        assert(spec_lines_of(a) + spec_lines_of(b) =~= (spec_lines_of(a) + spec_lines_of(
            b.drop_last(),
        )).push(b.last()@));
    }
}

/// The generator-mapping column of a bag array.
fn bag_mod_firsts(v: &Vec<Bag>) -> (r: Vec<u16>)
    ensures
        r@ == v@.map_values(|x: Bag| x.mod_ndx),
{
    let mut r: Vec<u16> = Vec::new();
    let mut i: usize = 0;
    while i < v.len()
        invariant
            i <= v@.len(),
            r@ == v@.take(i as int).map_values(|x: Bag| x.mod_ndx),
        decreases v@.len() - i,
    {
        r.push(v[i].mod_ndx);
        i = i + 1;
        assert(r@ =~= v@.take(i as int).map_values(|x: Bag| x.mod_ndx));
    }
    assert(v@.take(v@.len() as int) =~= v@);
    r
}

/// Appends one report line per generator.
fn push_gen_lines(z: &Vec<Generator>, out: &mut Vec<String>)
    ensures
        spec_lines_of(final(out)@) == spec_lines_of(old(out)@) + spec_gen_lines(z@),
{
    let ghost base = out@;
    let mut i: usize = 0;
    while i < z.len()
        invariant
            i <= z@.len(),
            base == old(out)@,
            spec_lines_of(out@) == spec_lines_of(base) + spec_gen_lines(z@.take(i as int)),
        decreases z@.len() - i,
    {
        proof {
            assert(z@.take(i as int + 1).drop_last() =~= z@.take(i as int));
            assert(z@.take(i as int + 1).last() == z@[i as int]);
        }
        let mut line = String::new();
        line.append("  ");
        let d = z[i].describe();
        line.append(d.as_str());
        proof {
            assert(line@ =~= "  "@ + crate::soundfont::spec_generator_text(z@[i as int]));
        }
        let ghost outp = out@;
        out.push(line);
        i = i + 1;
        proof {
            assert(out@.drop_last() =~= outp);
            assert(spec_lines_of(out@) =~= spec_lines_of(base) + spec_gen_lines(
                z@.take(i as int),
            ));
        }
    }
    assert(z@.take(z@.len() as int) =~= z@);
    assert(spec_gen_lines(z@.take(z@.len() as int)) =~= spec_gen_lines(z@));
}

impl SoundFont {
    /// The report lines of one instrument: its name, then per zone a header,
    /// the zone's generators and its modulator count.
    pub fn dump_instrument(&self, ix: usize) -> (r: Vec<String>)
        requires
            spec_wf(self@),
            ix < self@.instruments.len(),
        ensures
            spec_lines_of(r@) == spec_dump_instrument_lines(self@, ix as int),
    {
        proof {
            reveal_with_fuel(spec_lines_of, 5);
        }
        let ifirsts = instrument_firsts(&self.instruments);
        let gfirsts = bag_gen_firsts(&self.ibags);
        let mfirsts = bag_mod_firsts(&self.ibags);
        proof {
            assert(ifirsts@ =~= self@.instruments.map_values(
                |x: crate::soundfont::InstrumentV| x.bag_index,
            ));
        }
        let mut out: Vec<String> = Vec::new();
        let mut header = String::new();
        header.append("Instrument: ");
        header.append(self.instruments[ix].name.as_str());
        proof {
            assert(header@ =~= "Instrument: "@ + self@.instruments[ix as int].name);
        }
        {
            let ghost outp = out@;
            out.push(header);
            proof {
                assert(out@.drop_last() =~= outp);
            }
        }
        let bs = self.instruments[ix].bag_index as usize;
        let be = slice_end(&ifirsts, ix, self.ibags.len());
        if bs > be {
            proof {
                assert(spec_lines_of(out@) =~= spec_dump_instrument_lines(self@, ix as int));
            }
            return out;
        }
        assert(be <= self@.ibags.len());
        let mut b = bs;
        while b < be
            invariant
                spec_wf(self@),
                ix < self@.instruments.len(),
                bs <= b <= be <= self@.ibags.len(),
                gfirsts@ == self@.ibags.map_values(|x: Bag| x.gen_ndx),
                mfirsts@ == self@.ibags.map_values(|x: Bag| x.mod_ndx),
                spec_lines_of(out@) == seq!["Instrument: "@ + self@.instruments[ix as int].name]
                    + spec_izones_lines(self@, bs as int, b as int),
            decreases be - b,
        {
            let mut zh = String::new();
            zh.append("Instrument zone ");
            crate::text::push_dec_u64(&mut zh, (b - bs) as u64);
            zh.append(":");
            proof {
                assert(zh@ =~= "Instrument zone "@ + crate::text::dec_int(b - bs) + ":"@);
            }
            {
                let ghost outp = out@;
                {
            let ghost outp = out@;
            out.push(zh);
            proof {
                assert(out@.drop_last() =~= outp);
            }
        }
                proof {
                    assert(out@.drop_last() =~= outp);
                }
            }
            let gs = self.ibags[b].gen_ndx as usize;
            let ge = slice_end(&gfirsts, b, self.igens.len());
            assert(ge <= self@.igens.len());
            let z = zone_slice(&self.igens, gs, ge);
            assert(z@ == spec_izone(self@, b as int));
            push_gen_lines(&z, &mut out);
            let ms = self.ibags[b].mod_ndx as usize;
            let me = slice_end(&mfirsts, b, self.imods.len());
            let mc: usize = if ms <= me {
                me - ms
            } else {
                0
            };
            assert(mc as int == spec_ibag_mod_count(self@, b as int));
            let mut ml = String::new();
            ml.append("  modulators: ");
            crate::text::push_dec_u64(&mut ml, mc as u64);
            proof {
                assert(ml@ =~= "  modulators: "@ + crate::text::dec_int(
                    spec_ibag_mod_count(self@, b as int),
                ));
            }
            {
                let ghost outp = out@;
                {
            let ghost outp = out@;
            out.push(ml);
            proof {
                assert(out@.drop_last() =~= outp);
            }
        }
                proof {
                    assert(out@.drop_last() =~= outp);
                }
            }
            b = b + 1;
            assert(spec_lines_of(out@) =~= seq![
                "Instrument: "@ + self@.instruments[ix as int].name,
            ] + spec_izones_lines(self@, bs as int, b as int));
        }
        proof {
            assert(spec_lines_of(out@) =~= spec_dump_instrument_lines(self@, ix as int));
        }
        out
    }

    /// The report lines of one preset: its name and numbers, then per zone a
    /// header, the zone's generators (referenced instruments expanded in
    /// place) and its modulator count.
    pub fn dump_preset(&self, ix: usize) -> (r: Vec<String>)
        requires
            spec_wf(self@),
            ix < self@.presets.len(),
        ensures
            spec_lines_of(r@) == spec_dump_preset_lines(self@, ix as int),
    {
        proof {
            reveal_with_fuel(spec_lines_of, 5);
        }
        let pfirsts = preset_firsts(&self.presets);
        let gfirsts = bag_gen_firsts(&self.pbags);
        let mfirsts = bag_mod_firsts(&self.pbags);
        proof {
            assert(pfirsts@ =~= self@.presets.map_values(
                |x: crate::soundfont::PresetV| x.bag_index,
            ));
        }
        let ghost head = seq![
            "Name: "@ + self@.presets[ix as int].name,
            "Pos: "@ + crate::text::dec_int(self@.presets[ix as int].preset as int),
            "Bank: "@ + crate::text::dec_int(self@.presets[ix as int].bank as int),
        ];
        let mut out: Vec<String> = Vec::new();
        let mut l1 = String::new();
        l1.append("Name: ");
        l1.append(self.presets[ix].name.as_str());
        proof {
            assert(l1@ =~= "Name: "@ + self@.presets[ix as int].name);
        }
        {
            let ghost outp = out@;
            out.push(l1);
            proof {
                assert(out@.drop_last() =~= outp);
            }
        }
        let mut l2 = String::new();
        l2.append("Pos: ");
        crate::text::push_dec_i64(&mut l2, self.presets[ix].preset as i64);
        proof {
            assert(l2@ =~= "Pos: "@ + crate::text::dec_int(self@.presets[ix as int].preset as int));
        }
        {
            let ghost outp = out@;
            out.push(l2);
            proof {
                assert(out@.drop_last() =~= outp);
            }
        }
        let mut l3 = String::new();
        l3.append("Bank: ");
        crate::text::push_dec_i64(&mut l3, self.presets[ix].bank as i64);
        proof {
            assert(l3@ =~= "Bank: "@ + crate::text::dec_int(self@.presets[ix as int].bank as int));
        }
        {
            let ghost outp = out@;
            out.push(l3);
            proof {
                assert(out@.drop_last() =~= outp);
            }
        }
        assert(spec_lines_of(out@) =~= head);
        let bs = self.presets[ix].bag_index as usize;
        let be = slice_end(&pfirsts, ix, self.pbags.len());
        if bs > be {
            proof {
                assert(spec_lines_of(out@) =~= spec_dump_preset_lines(self@, ix as int));
            }
            return out;
        }
        assert(be <= self@.pbags.len());
        let mut b = bs;
        while b < be
            invariant
                spec_wf(self@),
                ix < self@.presets.len(),
                bs <= b <= be <= self@.pbags.len(),
                gfirsts@ == self@.pbags.map_values(|x: Bag| x.gen_ndx),
                mfirsts@ == self@.pbags.map_values(|x: Bag| x.mod_ndx),
                head == seq![
                    "Name: "@ + self@.presets[ix as int].name,
                    "Pos: "@ + crate::text::dec_int(self@.presets[ix as int].preset as int),
                    "Bank: "@ + crate::text::dec_int(self@.presets[ix as int].bank as int),
                ],
                spec_lines_of(out@) == head + spec_pzones_lines(self@, bs as int, b as int),
            decreases be - b,
        {
            let mut zh = String::new();
            zh.append("Preset zone ");
            crate::text::push_dec_u64(&mut zh, (b - bs) as u64);
            zh.append(":");
            proof {
                assert(zh@ =~= "Preset zone "@ + crate::text::dec_int(b - bs) + ":"@);
            }
            {
                let ghost outp = out@;
                {
            let ghost outp = out@;
            out.push(zh);
            proof {
                assert(out@.drop_last() =~= outp);
            }
        }
                proof {
                    assert(out@.drop_last() =~= outp);
                }
            }
            let ghost mid = spec_lines_of(out@);
            let gs = self.pbags[b].gen_ndx as usize;
            let ge = slice_end(&gfirsts, b, self.pgens.len());
            assert(ge <= self@.pgens.len());
            let z = zone_slice(&self.pgens, gs, ge);
            assert(z@ == spec_pzone(self@, b as int));
            assert(spec_lines_of(out@) =~= mid + spec_pgen_lines(self@, z@.take(0)));
            let mut j: usize = 0;
            while j < z.len()
                invariant
                    spec_wf(self@),
                    j <= z@.len(),
                    z@ == spec_pzone(self@, b as int),
                    spec_lines_of(out@) == mid + spec_pgen_lines(self@, z@.take(j as int)),
                decreases z@.len() - j,
            {
                proof {
                    assert(z@.take(j as int + 1).drop_last() =~= z@.take(j as int));
                    assert(z@.take(j as int + 1).last() == z@[j as int]);
                }
                let g = z[j];
                let expanded: bool = match g {
                    Generator::Instrument(iref) => (iref as usize) < self.instruments.len(),
                    _ => false,
                };
                if expanded {
                    if let Generator::Instrument(iref) = g {
                        let mut sub = self.dump_instrument(iref as usize);
                        let ghost subv = sub@;
                        let ghost outp = out@;
                        out.append(&mut sub);
                        proof {
                            lemma_lines_of_append(outp, subv);
                            assert(out@ =~= outp + subv);
                            assert(spec_lines_of(out@) =~= mid + spec_pgen_lines(
                                self@,
                                z@.take(j as int + 1),
                            ));
                        }
                    }
                } else {
                    let mut line = String::new();
                    line.append("  ");
                    let d = g.describe();
                    line.append(d.as_str());
                    proof {
                        assert(line@ =~= "  "@ + crate::soundfont::spec_generator_text(
                            z@[j as int],
                        ));
                    }
                    let ghost outp = out@;
                    out.push(line);
                    proof {
                        assert(out@.drop_last() =~= outp);
                        assert(spec_lines_of(out@) =~= mid + spec_pgen_lines(
                            self@,
                            z@.take(j as int + 1),
                        ));
                    }
                }
                j = j + 1;
            }
            assert(z@.take(z@.len() as int) =~= z@);
            let ms = self.pbags[b].mod_ndx as usize;
            let me = slice_end(&mfirsts, b, self.pmods.len());
            let mc: usize = if ms <= me {
                me - ms
            } else {
                0
            };
            assert(mc as int == spec_pbag_mod_count(self@, b as int));
            let mut ml = String::new();
            ml.append("  modulators: ");
            crate::text::push_dec_u64(&mut ml, mc as u64);
            proof {
                assert(ml@ =~= "  modulators: "@ + crate::text::dec_int(
                    spec_pbag_mod_count(self@, b as int),
                ));
            }
            {
                let ghost outp = out@;
                {
            let ghost outp = out@;
            out.push(ml);
            proof {
                assert(out@.drop_last() =~= outp);
            }
        }
                proof {
                    assert(out@.drop_last() =~= outp);
                }
            }
            b = b + 1;
            assert(spec_lines_of(out@) =~= head + spec_pzones_lines(self@, bs as int, b as int));
        }
        proof {
            assert(spec_lines_of(out@) =~= spec_dump_preset_lines(self@, ix as int));
        }
        out
    }

    /// The report lines of the whole bank: every preset but the terminal
    /// record, each expanded as `dump_preset` reports it.
    pub fn dump(&self) -> (r: Vec<String>)
        requires
            spec_wf(self@),
        ensures
            spec_lines_of(r@) == spec_dump_lines(self@),
    {
        proof {
            reveal_with_fuel(spec_lines_of, 5);
        }
        let mut out: Vec<String> = Vec::new();
        let mut header = String::new();
        header.append("Presets:");
        proof {
            assert(header@ =~= "Presets:"@);
        }
        {
            let ghost outp = out@;
            out.push(header);
            proof {
                assert(out@.drop_last() =~= outp);
            }
        }
        assert(spec_lines_of(out@) =~= seq!["Presets:"@]);
        assert(spec_lines_of(out@) =~= seq!["Presets:"@] + spec_presets_lines_upto(self@, 0));
        let n = self.presets.len();
        if n == 0 {
            proof {
                assert(spec_lines_of(out@) =~= spec_dump_lines(self@));
            }
            return out;
        }
        let mut i: usize = 0;
        while i < n - 1
            invariant
                spec_wf(self@),
                n == self@.presets.len(),
                n >= 1,
                i <= n - 1,
                spec_lines_of(out@) == seq!["Presets:"@] + spec_presets_lines_upto(
                    self@,
                    i as int,
                ),
            decreases n - i,
        {
            let mut sub = self.dump_preset(i);
            let ghost subv = sub@;
            let ghost outp = out@;
            out.append(&mut sub);
            i = i + 1;
            proof {
                lemma_lines_of_append(outp, subv);
                assert(out@ =~= outp + subv);
                assert(spec_lines_of(out@) =~= seq!["Presets:"@] + spec_presets_lines_upto(
                    self@,
                    i as int,
                ));
            }
        }
        proof {
            assert(spec_lines_of(out@) =~= spec_dump_lines(self@));
        }
        out
    }
}


} // verus!
