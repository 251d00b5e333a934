//! The codecs of every product.

use crate::bytes::HexBytes;
use crate::codec::{Codec, PacketCodec};
use crate::error::Error;
use crate::fan_packets::{
    NotifyH7105FanMode, NotifyH7105FanSpeed, SetH7105FanMode, SetH7105FanSpeed,
};
use crate::h5086::H5086PowerReading;
use crate::humidifier::{
    HumidifierAutoMode, NotifyHumidifierMode, NotifyHumidifierNightlightParams, SetHumidifierMode,
    SetHumidifierNightlightParams,
};
use crate::kind::PacketKind;
use crate::nightlight::{
    NotifyH7105NightlightColor, NotifyH7105NightlightState, SetH7105NightlightBrightness,
    SetH7105NightlightColor, SetH7105NightlightPower,
};
use crate::oscillation::{NotifyH7105Oscillation, SetH7105Oscillation};
use crate::packet::{
    decoding, encodable, encoded_as, encoding, kind_of, GoveeBlePacket, Packet, PacketValue,
};
use crate::param::{content, lemma_prefix_error};
use crate::power::SetDevicePower;
use crate::scene::SetSceneCode;
use crate::text::same_text;
use parking_lot::Mutex;
use std::sync::Arc;
use vstd::prelude::*;
use vstd::slice::slice_to_vec;

verus! {

/// The products that understand values of type `kind`.
pub open spec fn products(kind: PacketKind) -> Seq<Seq<char>> {
    match kind {
        PacketKind::SetHumidifierMode => seq!["H7160"@],
        PacketKind::NotifyHumidifierMode => seq!["H7160"@],
        PacketKind::HumidifierAutoMode => seq!["H7160"@],
        PacketKind::NotifyHumidifierNightlightParams => seq!["H7160"@],
        PacketKind::SetHumidifierNightlightParams => seq!["H7160"@],
        PacketKind::H5086PowerReading => seq!["H5086"@],
        PacketKind::SetH7105FanSpeed => seq!["H7105"@],
        PacketKind::NotifyH7105FanSpeed => seq!["H7105"@],
        PacketKind::SetH7105FanMode => seq!["H7105"@],
        PacketKind::NotifyH7105FanMode => seq!["H7105"@],
        PacketKind::SetH7105NightlightPower => seq!["H7105"@],
        PacketKind::SetH7105NightlightBrightness => seq!["H7105"@],
        PacketKind::SetH7105NightlightColor => seq!["H7105"@],
        PacketKind::NotifyH7105NightlightState => seq!["H7105"@],
        PacketKind::NotifyH7105NightlightColor => seq!["H7105"@],
        PacketKind::SetH7105Oscillation => seq!["H7105"@],
        PacketKind::NotifyH7105Oscillation => seq!["H7105"@],
        PacketKind::SetSceneCode => seq!["Generic:Light"@],
        PacketKind::SetDevicePower => seq!["Generic:Light"@, "H7105"@],
    }
}

/// Whether the product `sku` understands values of type `kind`.
pub open spec fn registered(kind: PacketKind, sku: Seq<char>) -> bool {
    match kind {
        PacketKind::SetHumidifierMode => sku == "H7160"@,
        PacketKind::NotifyHumidifierMode => sku == "H7160"@,
        PacketKind::HumidifierAutoMode => sku == "H7160"@,
        PacketKind::NotifyHumidifierNightlightParams => sku == "H7160"@,
        PacketKind::SetHumidifierNightlightParams => sku == "H7160"@,
        PacketKind::H5086PowerReading => sku == "H5086"@,
        PacketKind::SetH7105FanSpeed => sku == "H7105"@,
        PacketKind::NotifyH7105FanSpeed => sku == "H7105"@,
        PacketKind::SetH7105FanMode => sku == "H7105"@,
        PacketKind::NotifyH7105FanMode => sku == "H7105"@,
        PacketKind::SetH7105NightlightPower => sku == "H7105"@,
        PacketKind::SetH7105NightlightBrightness => sku == "H7105"@,
        PacketKind::SetH7105NightlightColor => sku == "H7105"@,
        PacketKind::NotifyH7105NightlightState => sku == "H7105"@,
        PacketKind::NotifyH7105NightlightColor => sku == "H7105"@,
        PacketKind::SetH7105Oscillation => sku == "H7105"@,
        PacketKind::NotifyH7105Oscillation => sku == "H7105"@,
        PacketKind::SetSceneCode => sku == "Generic:Light"@,
        PacketKind::SetDevicePower => sku == "Generic:Light"@ || sku == "H7105"@,
    }
}

/// The position of the codec for values of type `kind`.
pub open spec fn position(kind: PacketKind) -> int {
    match kind {
        PacketKind::SetHumidifierMode => 0,
        PacketKind::NotifyHumidifierMode => 1,
        PacketKind::HumidifierAutoMode => 2,
        PacketKind::NotifyHumidifierNightlightParams => 3,
        PacketKind::SetHumidifierNightlightParams => 4,
        PacketKind::H5086PowerReading => 5,
        PacketKind::SetH7105FanSpeed => 6,
        PacketKind::NotifyH7105FanSpeed => 7,
        PacketKind::SetH7105FanMode => 8,
        PacketKind::NotifyH7105FanMode => 9,
        PacketKind::SetH7105NightlightPower => 10,
        PacketKind::SetH7105NightlightBrightness => 11,
        PacketKind::SetH7105NightlightColor => 12,
        PacketKind::NotifyH7105NightlightState => 13,
        PacketKind::NotifyH7105NightlightColor => 14,
        PacketKind::SetH7105Oscillation => 15,
        PacketKind::NotifyH7105Oscillation => 16,
        PacketKind::SetSceneCode => 17,
        PacketKind::SetDevicePower => 18,
    }
}

/// The codec for values of type `kind`.
pub open spec fn codec_for(kind: PacketKind) -> Codec {
    Codec { kind, skus: products(kind) }
}

/// The codecs of every product.
pub open spec fn codec_table() -> Seq<Codec> {
    seq![
        codec_for(PacketKind::SetHumidifierMode),
        codec_for(PacketKind::NotifyHumidifierMode),
        codec_for(PacketKind::HumidifierAutoMode),
        codec_for(PacketKind::NotifyHumidifierNightlightParams),
        codec_for(PacketKind::SetHumidifierNightlightParams),
        codec_for(PacketKind::H5086PowerReading),
        codec_for(PacketKind::SetH7105FanSpeed),
        codec_for(PacketKind::NotifyH7105FanSpeed),
        codec_for(PacketKind::SetH7105FanMode),
        codec_for(PacketKind::NotifyH7105FanMode),
        codec_for(PacketKind::SetH7105NightlightPower),
        codec_for(PacketKind::SetH7105NightlightBrightness),
        codec_for(PacketKind::SetH7105NightlightColor),
        codec_for(PacketKind::NotifyH7105NightlightState),
        codec_for(PacketKind::NotifyH7105NightlightColor),
        codec_for(PacketKind::SetH7105Oscillation),
        codec_for(PacketKind::NotifyH7105Oscillation),
        codec_for(PacketKind::SetSceneCode),
        codec_for(PacketKind::SetDevicePower),
    ]
}

/// What each codec is.
pub open spec fn models(codecs: Seq<Arc<PacketCodec>>) -> Seq<Codec> {
    Seq::new(codecs.len(), |i: int| codecs[i]@)
}

/// The codecs of the product `sku`, by the type of value that they are for. Of
/// two codecs for the same type the later one counts.
pub open spec fn codec_map(codecs: Seq<Codec>, sku: Seq<char>) -> Map<PacketKind, Codec>
    decreases codecs.len(),
{
    if codecs.len() == 0 {
        Map::empty()
    } else {
        let before = codec_map(codecs.drop_last(), sku);
        let codec = codecs.last();
        if codec.skus.contains(sku) {
            before.insert(codec.kind, codec)
        } else {
            before
        }
    }
}

/// Whether the codec at `i` is the last one that is for values of type `kind`
/// and for the product `sku`.
pub open spec fn is_last(codecs: Seq<Codec>, sku: Seq<char>, kind: PacketKind, i: int) -> bool {
    &&& 0 <= i < codecs.len()
    &&& codecs[i].kind == kind
    &&& codecs[i].skus.contains(sku)
    &&& forall|k: int|
        i < k < codecs.len() && (#[trigger] codecs[k]).skus.contains(sku) ==> codecs[k].kind
            != kind
}

/// The map of a product has an entry for a type exactly if one of the codecs is
/// for that type and lists the product, and the entry is the last such codec.
pub proof fn law_map_holds_last_codecs(codecs: Seq<Codec>, sku: Seq<char>, kind: PacketKind)
    ensures
        codec_map(codecs, sku).dom().contains(kind) <==> exists|i: int|
            0 <= i < codecs.len() && (#[trigger] codecs[i]).kind == kind && codecs[i].skus.contains(
                sku,
            ),
        codec_map(codecs, sku).dom().contains(kind) ==> exists|i: int| #[trigger]
            is_last(codecs, sku, kind, i) && codec_map(codecs, sku)[kind] == codecs[i],
    decreases codecs.len(),
{
    if codecs.len() > 0 {
        let n = codecs.len() - 1;
        let before = codecs.drop_last();
        law_map_holds_last_codecs(before, sku, kind);
        if codecs[n].skus.contains(sku) && codecs[n].kind == kind {
            assert(is_last(codecs, sku, kind, n));
        } else {
            if codec_map(before, sku).dom().contains(kind) {
                let i = choose|i: int| #[trigger]
                    is_last(before, sku, kind, i) && codec_map(before, sku)[kind] == before[i];
                assert(before[i] == codecs[i]);
                assert forall|k: int|
                    i < k < codecs.len() && (#[trigger] codecs[k]).skus.contains(
                        sku,
                    ) implies codecs[k].kind != kind by {
                    if k < n {
                        assert(before[k] == codecs[k]);
                    }
                }
                assert(is_last(codecs, sku, kind, i));
            } else {
                assert forall|i: int|
                    0 <= i < codecs.len() && (#[trigger] codecs[i]).kind
                        == kind implies !codecs[i].skus.contains(sku) by {
                    if i < n {
                        assert(before[i] == codecs[i]);
                    }
                }
            }
        }
    }
}

/// A product that no codec lists has an empty map.
pub proof fn law_unlisted_product_has_no_codecs(codecs: Seq<Codec>, sku: Seq<char>)
    requires
        forall|i: int| 0 <= i < codecs.len() ==> !(#[trigger] codecs[i]).skus.contains(sku),
    ensures
        codec_map(codecs, sku) == Map::<PacketKind, Codec>::empty(),
{
    assert forall|kind: PacketKind| !codec_map(codecs, sku).dom().contains(kind) by {
        law_map_holds_last_codecs(codecs, sku, kind);
    }
    assert(codec_map(codecs, sku) =~= Map::<PacketKind, Codec>::empty());
}

/// The products of a codec are those that understand its values.
proof fn lemma_products(kind: PacketKind, sku: Seq<char>)
    ensures
        products(kind).contains(sku) <==> registered(kind, sku),
{
    let skus = products(kind);
    assert(skus.len() > 0 && skus.contains(skus[0]));
    assert(skus.len() > 1 ==> skus.contains(skus[1]));
}

/// The map of a product has exactly the codecs for the types of value that the
/// product understands.
pub proof fn law_map_of_product(sku: Seq<char>, kind: PacketKind)
    ensures
        codec_map(codec_table(), sku).dom().contains(kind) <==> registered(kind, sku),
        registered(kind, sku) ==> codec_map(codec_table(), sku)[kind] == codec_for(kind),
{
    let codecs = codec_table();
    law_map_holds_last_codecs(codecs, sku, kind);
    lemma_products(kind, sku);
    assert(codecs[position(kind)] == codec_for(kind));
    if codec_map(codecs, sku).dom().contains(kind) {
        let i = choose|i: int| #[trigger]
            is_last(codecs, sku, kind, i) && codec_map(codecs, sku)[kind] == codecs[i];
        lemma_position(i);
    }
}

/// Each codec stands at the position of its type.
proof fn lemma_position(i: int)
    requires
        0 <= i < codec_table().len(),
    ensures
        codec_table().len() == 19,
        position(codec_table()[i].kind) == i,
        codec_table()[i] == codec_for(codec_table()[i].kind),
{
}

/// Whether no two codecs are for the same type of value.
pub open spec fn kinds_differ(entries: Seq<Codec>) -> bool {
    forall|p: int, q: int|
        0 <= p < q < entries.len() ==> (#[trigger] entries[p]).kind != (#[trigger] entries[q]).kind
}

/// Whether one of `entries` is for values of type `kind`.
pub open spec fn has_kind(entries: Seq<Codec>, kind: PacketKind) -> bool {
    exists|p: int| 0 <= p < entries.len() && (#[trigger] entries[p]).kind == kind
}

/// The codecs in `entries`, by the type of value that they are for.
pub open spec fn by_kind(entries: Seq<Codec>) -> Map<PacketKind, Codec> {
    Map::new(
        |kind: PacketKind| has_kind(entries, kind),
        |kind: PacketKind|
            entries[choose|p: int|
                0 <= p < entries.len() && (#[trigger] entries[p]).kind == kind],
    )
}

/// Where no two codecs are for the same type, each is found by its type.
proof fn lemma_by_kind(entries: Seq<Codec>, p: int)
    requires
        kinds_differ(entries),
        0 <= p < entries.len(),
    ensures
        by_kind(entries).dom().contains(entries[p].kind),
        by_kind(entries)[entries[p].kind] == entries[p],
{
    let kind = entries[p].kind;
    let q = choose|q: int| 0 <= q < entries.len() && (#[trigger] entries[q]).kind == kind;
    assert(entries[q].kind == kind);
    assert(q == p) by {
        if q < p {
            assert(entries[q].kind != entries[p].kind);
        } else if p < q {
            assert(entries[p].kind != entries[q].kind);
        }
    }
}

/// A codec takes the place of the one for its type at `p`, or stands behind all
/// entries if there is none.
proof fn lemma_entry_added(before: Seq<Codec>, p: int, codec: Codec, after: Seq<Codec>)
    requires
        kinds_differ(before),
        0 <= p <= before.len(),
        forall|q: int| 0 <= q < p ==> (#[trigger] before[q]).kind != codec.kind,
        p < before.len() ==> before[p].kind == codec.kind && after == before.update(p, codec),
        p == before.len() ==> after == before.push(codec),
    ensures
        kinds_differ(after),
        by_kind(after) == by_kind(before).insert(codec.kind, codec),
{
    assert forall|q: int| 0 <= q < before.len() && q != p implies (#[trigger] before[q]).kind
        != codec.kind by {
        if q > p {
            assert(before[p].kind != before[q].kind);
        }
    }
    assert forall|q: int| 0 <= q < after.len() && q != p implies #[trigger] after[q] == before[q] by {
    }
    assert(after[p] == codec);
    assert(kinds_differ(after));
    let expected = by_kind(before).insert(codec.kind, codec);
    assert forall|kind: PacketKind| by_kind(after).dom().contains(kind)
        <==> expected.dom().contains(kind) by {
        if has_kind(after, kind) {
            let q = choose|q: int| 0 <= q < after.len() && (#[trigger] after[q]).kind == kind;
            if q != p {
                assert(before[q].kind == kind);
            }
        }
        if has_kind(before, kind) {
            let q = choose|q: int| 0 <= q < before.len() && (#[trigger] before[q]).kind == kind;
            assert(after[q].kind == kind);
        }
    }
    assert forall|kind: PacketKind| by_kind(after).dom().contains(kind) implies by_kind(after)[kind]
        == expected[kind] by {
        let q = choose|q: int| 0 <= q < after.len() && (#[trigger] after[q]).kind == kind;
        lemma_by_kind(after, q);
        if q != p {
            lemma_by_kind(before, q);
        }
    }
    assert(by_kind(after) =~= expected);
}

/// The codecs of one product.
pub struct SkuMap {
    sku: String,
    entries: Vec<Arc<PacketCodec>>,
}

impl View for SkuMap {
    type V = Map<PacketKind, Codec>;

    closed spec fn view(&self) -> Map<PacketKind, Codec> {
        by_kind(models(self.entries@))
    }
}

impl SkuMap {
    #[verifier::type_invariant]
    spec fn well_formed(self) -> bool {
        &&& kinds_differ(models(self.entries@))
        &&& self@ == codec_map(codec_table(), self.sku@)
    }

    /// The product.
    pub closed spec fn spec_sku(&self) -> Seq<char> {
        self.sku@
    }

    /// Looks the codecs of the product `sku` up.
    fn new(codecs: &Vec<Arc<PacketCodec>>, sku: &str) -> (r: Self)
        requires
            models(codecs@) == codec_table(),
        ensures
            r.spec_sku() == sku@,
            r@ == codec_map(models(codecs@), sku@),
    {
        let entries = find_codecs(codecs, sku);
        SkuMap { sku: sku.to_owned(), entries }
    }

    /// The codec for values of type `kind`, if the product has one.
    pub fn get(&self, kind: PacketKind) -> (r: Option<Arc<PacketCodec>>)
        ensures
            match r {
                Some(codec) => self@.dom().contains(kind) && codec@ == self@[kind] && codec@.kind
                    == kind,
                None => !self@.dom().contains(kind),
            },
    {
        proof {
            use_type_invariant(self);
        }
        let ghost entries = models(self.entries@);
        let mut p: usize = 0;
        while p < self.entries.len()
            invariant
                entries == models(self.entries@),
                kinds_differ(entries),
                self@ == by_kind(entries),
                p <= self.entries.len(),
                forall|q: int| 0 <= q < p ==> (#[trigger] entries[q]).kind != kind,
            decreases self.entries.len() - p,
        {
            assert(entries[p as int] == self.entries@[p as int]@);
            if self.entries[p].kind() == kind {
                proof {
                    lemma_by_kind(entries, p as int);
                }
                return Some(self.entries[p].clone());
            }
            p = p + 1;
        }
        None
    }

    /// The codecs of the product, one for each type of value that it understands.
    pub fn codecs(&self) -> (r: &Vec<Arc<PacketCodec>>)
        ensures
            kinds_differ(models(r@)),
            by_kind(models(r@)) == self@,
            self@ == codec_map(codec_table(), self.spec_sku()),
    {
        proof {
            use_type_invariant(self);
        }
        &self.entries
    }
}

/// The raw lock of `parking_lot`.
#[verifier::external_type_specification]
#[verifier::external_body]
pub struct ExRawMutex(parking_lot::RawMutex);

/// The lock of `parking_lot`. Nothing is known of what it holds but the type,
/// since other threads may change it at any time.
#[verifier::external_type_specification]
#[verifier::external_body]
#[verifier::reject_recursive_types(R)]
#[verifier::reject_recursive_types(T)]
pub struct ExMutex<R, T: ?Sized>(parking_lot::lock_api::Mutex<R, T>);

/// Calls `parking_lot::Mutex::new`. Nothing is claimed of what the lock holds,
/// since that changes while the lock is shared.
#[verifier::external_body]
fn new_lock(maps: Vec<Arc<SkuMap>>) -> (r: Mutex<Vec<Arc<SkuMap>>>) {
    Mutex::new(maps)
}

/// Calls `parking_lot::Mutex::lock` to copy what the lock holds, and lets go of
/// the lock before it returns. Nothing is claimed of the maps, which depend on
/// what other threads have looked up; that each of them is right for its
/// product is the invariant of their type.
#[verifier::external_body]
fn remembered(lock: &Mutex<Vec<Arc<SkuMap>>>) -> (r: Vec<Arc<SkuMap>>) {
    lock.lock().clone()
}

/// Calls `parking_lot::Mutex::lock` to add a map to what the lock holds, and
/// lets go of the lock before it returns. Nothing is claimed of what the lock
/// holds afterwards, which other threads may have changed by then.
#[verifier::external_body]
fn remember(lock: &Mutex<Vec<Arc<SkuMap>>>, map: Arc<SkuMap>) {
    lock.lock().push(map)
}

/// Knows the codecs of every product.
pub struct PacketManager {
    codec_by_sku: Mutex<Vec<Arc<SkuMap>>>,
    all_codecs: Vec<Arc<PacketCodec>>,
}

/// Finds the codecs for the product `sku`, one for each type of value. Of two
/// codecs for the same type the later one counts.
fn find_codecs(codecs: &Vec<Arc<PacketCodec>>, sku: &str) -> (r: Vec<Arc<PacketCodec>>)
    ensures
        kinds_differ(models(r@)),
        by_kind(models(r@)) == codec_map(models(codecs@), sku@),
{
    let ghost table = models(codecs@);
    let mut entries: Vec<Arc<PacketCodec>> = Vec::new();
    let mut i: usize = 0;
    assert(by_kind(models(entries@)) =~= codec_map(table.take(0), sku@));
    while i < codecs.len()
        invariant
            i <= codecs.len(),
            table == models(codecs@),
            kinds_differ(models(entries@)),
            by_kind(models(entries@)) == codec_map(table.take(i as int), sku@),
        decreases codecs.len() - i,
    {
        let ghost before = models(entries@);
        let ghost codec = table[i as int];
        assert(table.take(i + 1).drop_last() =~= table.take(i as int));
        if codecs[i].supports_sku(sku) {
            let mut p: usize = 0;
            while p < entries.len() && entries[p].kind() != codecs[i].kind()
                invariant
                    i < codecs.len(),
                    codec == codecs@[i as int]@,
                    models(entries@) == before,
                    p <= entries.len(),
                    forall|q: int| 0 <= q < p ==> (#[trigger] before[q]).kind != codec.kind,
                decreases entries.len() - p,
            {
                assert(before[p as int] == entries@[p as int]@);
                p = p + 1;
            }
            if p < entries.len() {
                assert(before[p as int] == entries@[p as int]@);
                entries.set(p, codecs[i].clone());
                assert(models(entries@) =~= before.update(p as int, codec));
            } else {
                entries.push(codecs[i].clone());
                assert(models(entries@) =~= before.push(codec));
            }
            proof {
                lemma_entry_added(before, p as int, codec, models(entries@));
            }
        }
        i = i + 1;
    }
    assert(table.take(codecs.len() as int) =~= table);
    entries
}

/// The first bytes of every packet that the codec for `kind` understands. A
/// power reading has two possible first bytes; scene commands are never read.
pub open spec fn opening(kind: PacketKind) -> Seq<u8> {
    match kind {
        PacketKind::SetHumidifierMode => seq![0x33u8, 0x05],
        PacketKind::NotifyHumidifierMode => seq![0xaau8, 0x05, 0x00],
        PacketKind::HumidifierAutoMode => seq![0xaau8, 0x05, 0x03],
        PacketKind::NotifyHumidifierNightlightParams => seq![0xaau8, 0x1b],
        PacketKind::SetHumidifierNightlightParams => seq![0x33u8, 0x1b],
        PacketKind::H5086PowerReading => seq![],
        PacketKind::SetH7105FanSpeed => seq![0x33u8, 0x05, 0x01],
        PacketKind::NotifyH7105FanSpeed => seq![0xaau8, 0x05, 0x01],
        PacketKind::SetH7105FanMode => seq![0x33u8, 0x05, 0x00],
        PacketKind::NotifyH7105FanMode => seq![0xaau8, 0x05, 0x00],
        PacketKind::SetH7105NightlightPower => seq![0x3au8, 0x1b, 0x01, 0x01],
        PacketKind::SetH7105NightlightBrightness => seq![0x3au8, 0x1b, 0x01, 0x02],
        PacketKind::SetH7105NightlightColor => seq![0x3au8, 0x1b, 0x05, 0x0d],
        PacketKind::NotifyH7105NightlightState => seq![0xaau8, 0x1b, 0x01],
        PacketKind::NotifyH7105NightlightColor => seq![0xaau8, 0x1b, 0x05, 0x0d],
        PacketKind::SetH7105Oscillation => seq![0x3au8, 0x1d],
        PacketKind::NotifyH7105Oscillation => seq![0xaau8, 0x1d],
        PacketKind::SetSceneCode => seq![],
        PacketKind::SetDevicePower => seq![0x33u8, 0x01],
    }
}

/// A packet that the codec for `kind` understands has the right first bytes.
pub proof fn lemma_opening(kind: PacketKind, data: Seq<u8>)
    requires
        decoding(kind, data) is Ok,
    ensures
        data.len() >= opening(kind).len(),
        forall|i: int| 0 <= i < opening(kind).len() ==> data[i] == opening(kind)[i],
{
    lemma_prefix_error(content(data), opening(kind), 0);
}

/// At most one codec of a product understands a packet, so that the order in
/// which the codecs are asked makes no difference.
pub proof fn law_one_codec_understands(
    sku: Seq<char>,
    data: Seq<u8>,
    a: PacketKind,
    b: PacketKind,
)
    requires
        registered(a, sku),
        registered(b, sku),
        decoding(a, data) is Ok,
        decoding(b, data) is Ok,
    ensures
        a == b,
{
    lemma_skus_differ();
    lemma_opening(a, data);
    lemma_opening(b, data);
    let x = opening(a);
    let y = opening(b);
    assert(x.len() > 0 ==> data[0] == x[0]);
    assert(y.len() > 0 ==> data[0] == y[0]);
    assert(x.len() > 1 ==> data[1] == x[1]);
    assert(y.len() > 1 ==> data[1] == y[1]);
    assert(x.len() > 2 ==> data[2] == x[2]);
    assert(y.len() > 2 ==> data[2] == y[2]);
    assert(x.len() > 3 ==> data[3] == x[3]);
    assert(y.len() > 3 ==> data[3] == y[3]);
}

/// The product numbers are different texts.
proof fn lemma_skus_differ()
    ensures
        "H7160"@ != "H7105"@,
        "H7160"@ != "H5086"@,
        "H7160"@ != "Generic:Light"@,
        "H7105"@ != "H5086"@,
        "H7105"@ != "Generic:Light"@,
        "H5086"@ != "Generic:Light"@,
{
    reveal_strlit("H7160");
    reveal_strlit("H7105");
    reveal_strlit("H5086");
    reveal_strlit("Generic:Light");
    assert("H7160"@[2] == '1' && "H7105"@[2] == '1' && "H5086"@[2] == '0');
    assert("H7160"@[3] == '6' && "H7105"@[3] == '0');
    assert("Generic:Light"@[0] == 'G' && "H7160"@[0] == 'H' && "H7105"@[0] == 'H' && "H5086"@[0] == 'H');
}

/// No two codecs are for the same type of value.
pub proof fn law_no_conflicting_codecs(i: int, k: int)
    requires
        0 <= i < codec_table().len(),
        0 <= k < codec_table().len(),
        i != k,
    ensures
        codec_table()[i].kind != codec_table()[k].kind,
{
    lemma_position(i);
    lemma_position(k);
}

/// What the packet `data` from the product `sku` is: what the codec that
/// understands it says, or else just its bytes.
pub open spec fn packet_for_sku(sku: Seq<char>, data: Seq<u8>) -> Packet {
    if exists|kind: PacketKind| registered(kind, sku) && #[trigger] decoding(kind, data) is Ok {
        let kind = choose|kind: PacketKind|
            registered(kind, sku) && #[trigger] decoding(kind, data) is Ok;
        decoding(kind, data)->Ok_0
    } else {
        Packet::Generic(data)
    }
}

/// A codec that understands a packet decides what it is.
pub proof fn law_codec_decides(sku: Seq<char>, data: Seq<u8>, kind: PacketKind)
    requires
        registered(kind, sku),
        decoding(kind, data) is Ok,
    ensures
        packet_for_sku(sku, data) == decoding(kind, data)->Ok_0,
{
    let chosen = choose|kind: PacketKind|
        registered(kind, sku) && #[trigger] decoding(kind, data) is Ok;
    law_one_codec_understands(sku, data, kind, chosen);
}

/// Whether `r` is the answer to encoding `packet`, which carries a value of
/// type `kind`, for the product `sku`.
pub open spec fn encoded_for_sku(
    r: Result<Vec<u8>, Error>,
    sku: Seq<char>,
    kind: PacketKind,
    packet: Packet,
) -> bool {
    if registered(kind, sku) {
        encoded_as(r, encoding(packet))
    } else {
        no_codec(r, sku, kind)
    }
}

/// Whether `r` says that the product `sku` has no codec for values of type `kind`.
pub open spec fn no_codec<T>(r: Result<T, Error>, sku: Seq<char>, kind: PacketKind) -> bool {
    match r {
        Err(Error::NoCodec { sku: s, kind: k }) => s@ == sku && k == kind,
        _ => false,
    }
}

impl PacketManager {
    #[verifier::type_invariant]
    spec fn well_formed(self) -> bool {
        models(self.all_codecs@) == codec_table()
    }

    /// All codecs, those of every product.
    pub closed spec fn codecs(&self) -> Seq<Codec> {
        models(self.all_codecs@)
    }

    /// A manager that knows the codecs of every product.
    pub fn new() -> (r: Self)
        ensures
            r.codecs() == codec_table(),
    {
        let mut all_codecs: Vec<Arc<PacketCodec>> = Vec::new();
        all_codecs.push(Arc::new(PacketCodec::new::<SetHumidifierMode>(&["H7160"])));
        all_codecs.push(Arc::new(PacketCodec::new::<NotifyHumidifierMode>(&["H7160"])));
        all_codecs.push(Arc::new(PacketCodec::new::<HumidifierAutoMode>(&["H7160"])));
        all_codecs.push(Arc::new(PacketCodec::new::<NotifyHumidifierNightlightParams>(&["H7160"])));
        all_codecs.push(Arc::new(PacketCodec::new::<SetHumidifierNightlightParams>(&["H7160"])));
        all_codecs.push(Arc::new(PacketCodec::new::<H5086PowerReading>(&["H5086"])));
        all_codecs.push(Arc::new(PacketCodec::new::<SetH7105FanSpeed>(&["H7105"])));
        all_codecs.push(Arc::new(PacketCodec::new::<NotifyH7105FanSpeed>(&["H7105"])));
        all_codecs.push(Arc::new(PacketCodec::new::<SetH7105FanMode>(&["H7105"])));
        all_codecs.push(Arc::new(PacketCodec::new::<NotifyH7105FanMode>(&["H7105"])));
        all_codecs.push(Arc::new(PacketCodec::new::<SetH7105NightlightPower>(&["H7105"])));
        all_codecs.push(Arc::new(PacketCodec::new::<SetH7105NightlightBrightness>(&["H7105"])));
        all_codecs.push(Arc::new(PacketCodec::new::<SetH7105NightlightColor>(&["H7105"])));
        all_codecs.push(Arc::new(PacketCodec::new::<NotifyH7105NightlightState>(&["H7105"])));
        all_codecs.push(Arc::new(PacketCodec::new::<NotifyH7105NightlightColor>(&["H7105"])));
        all_codecs.push(Arc::new(PacketCodec::new::<SetH7105Oscillation>(&["H7105"])));
        all_codecs.push(Arc::new(PacketCodec::new::<NotifyH7105Oscillation>(&["H7105"])));
        all_codecs.push(Arc::new(PacketCodec::new::<SetSceneCode>(&["Generic:Light"])));
        all_codecs.push(Arc::new(PacketCodec::new::<SetDevicePower>(&["Generic:Light", "H7105"])));
        assert(models(all_codecs@) =~~= codec_table());
        PacketManager { codec_by_sku: new_lock(Vec::new()), all_codecs }
    }

    /// The codecs for the product `sku`. What has been looked up is remembered;
    /// that it comes from there or is looked up anew makes no difference.
    pub fn map_for_sku(&self, sku: &str) -> (r: Arc<SkuMap>)
        ensures
            r.spec_sku() == sku@,
            r@ == codec_map(self.codecs(), sku@),
            self.codecs() == codec_table(),
    {
        proof {
            use_type_invariant(self);
        }
        let maps = remembered(&self.codec_by_sku);
        let mut i: usize = 0;
        while i < maps.len()
            invariant
                i <= maps.len(),
                self.codecs() == codec_table(),
            decreases maps.len() - i,
        {
            let map: &SkuMap = &maps[i];
            if same_text(map.sku.as_str(), sku) {
                proof {
                    use_type_invariant(map);
                }
                return maps[i].clone();
            }
            i = i + 1;
        }
        let map = Arc::new(SkuMap::new(&self.all_codecs, sku));
        remember(&self.codec_by_sku, map.clone());
        map
    }

    /// The codec for values of type `kind` that the product `sku` understands.
    fn resolve_by_sku(&self, sku: &str, kind: PacketKind) -> (r: Result<Arc<PacketCodec>, Error>)
        ensures
            if registered(kind, sku@) {
                r is Ok && r->Ok_0@ == codec_map(self.codecs(), sku@)[kind] && r->Ok_0@.kind == kind
            } else {
                no_codec(r, sku@, kind)
            },
    {
        proof {
            law_map_of_product(sku@, kind);
        }
        match self.map_for_sku(sku).get(kind) {
            Some(codec) => Ok(codec),
            None => Err(Error::NoCodec { sku: sku.to_owned(), kind }),
        }
    }

    /// Decodes a packet from the product `sku`. Bytes that no codec of the
    /// product understands are kept as they are.
    pub fn decode_for_sku(&self, sku: &str, data: &[u8]) -> (r: GoveeBlePacket)
        ensures
            r@ == packet_for_sku(sku@, data@),
            forall|kind: PacketKind|
                registered(kind, sku@) && #[trigger] decoding(kind, data@) is Ok ==> r@
                    == decoding(kind, data@)->Ok_0,
    {
        let map = self.map_for_sku(sku);
        let codecs = map.codecs();
        let ghost entries = models(codecs@);
        let mut p: usize = 0;
        while p < codecs.len()
            invariant
                entries == models(codecs@),
                by_kind(entries) == codec_map(codec_table(), sku@),
                p <= codecs.len(),
                forall|q: int| 0 <= q < p ==> decoding((#[trigger] entries[q]).kind, data@) is Err,
            decreases codecs.len() - p,
        {
            assert(entries[p as int] == codecs@[p as int]@);
            if let Ok(value) = codecs[p].decode(data) {
                proof {
                    let kind = entries[p as int].kind;
                    assert(by_kind(entries).dom().contains(kind));
                    law_map_of_product(sku@, kind);
                    law_codec_decides(sku@, data@, kind);
                    assert forall|kind: PacketKind|
                        registered(kind, sku@) && #[trigger] decoding(
                            kind,
                            data@,
                        ) is Ok implies value@ == decoding(kind, data@)->Ok_0 by {
                        law_codec_decides(sku@, data@, kind);
                    }
                }
                return value;
            }
            p = p + 1;
        }
        proof {
            assert forall|kind: PacketKind| registered(kind, sku@) implies #[trigger] decoding(
                kind,
                data@,
            ) is Err by {
                law_map_of_product(sku@, kind);
                assert(by_kind(entries).dom().contains(kind));
            }
        }
        GoveeBlePacket::Generic(HexBytes::new(slice_to_vec(data)))
    }

    /// Encodes a value for the product `sku`.
    pub fn encode_for_sku<T: PacketValue>(&self, sku: &str, value: &T) -> (r: Result<Vec<u8>, Error>)
        requires
            registered(T::spec_kind(), sku@) ==> encodable(value.packet()),
        ensures
            encoded_for_sku(r, sku@, T::spec_kind(), value.packet()),
    {
        let codec = match self.resolve_by_sku(sku, T::kind()) {
            Ok(codec) => codec,
            Err(e) => return Err(e),
        };
        codec.encode(value)
    }

    /// Encodes a value for the product `sku`, or returns `None` where the
    /// product understands the value but it is too long to be encoded.
    pub fn try_encode_for_sku<T: PacketValue>(&self, sku: &str, value: &T) -> (r: Option<Result<Vec<u8>, Error>>)
        ensures
            r is None <==> registered(T::spec_kind(), sku@) && !encodable(value.packet()),
            r is Some ==> encoded_for_sku(r->Some_0, sku@, T::spec_kind(), value.packet()),
    {
        let supported = self.resolve_by_sku(sku, T::kind()).is_ok();
        if supported && !value.is_encodable() {
            return None;
        }
        Some(self.encode_for_sku(sku, value))
    }
}

/// The humidifier H7160 understands five types of value, the plug H5086 one, the
/// fan H7105 twelve and a light two. No other product understands any.
pub proof fn law_products_of_types(kind: PacketKind, sku: Seq<char>)
    ensures
        registered(kind, "H7160"@) <==> kind is SetHumidifierMode || kind is NotifyHumidifierMode || kind is HumidifierAutoMode || kind is NotifyHumidifierNightlightParams || kind is SetHumidifierNightlightParams,
        registered(kind, "H5086"@) <==> kind is H5086PowerReading,
        registered(kind, "H7105"@) <==> kind is SetH7105FanSpeed || kind is NotifyH7105FanSpeed || kind is SetH7105FanMode || kind is NotifyH7105FanMode || kind is SetH7105NightlightPower || kind is SetH7105NightlightBrightness || kind is SetH7105NightlightColor || kind is NotifyH7105NightlightState || kind is NotifyH7105NightlightColor || kind is SetH7105Oscillation || kind is NotifyH7105Oscillation || kind is SetDevicePower,
        registered(kind, "Generic:Light"@) <==> kind is SetSceneCode || kind is SetDevicePower,
        registered(kind, sku) ==> sku == "H7160"@ || sku == "H5086"@ || sku == "H7105"@ || sku
            == "Generic:Light"@,
{
    lemma_skus_differ();
}

/// The last codec that lists a product counts for its type of value.
pub proof fn law_last_codec_counts(codecs: Seq<Codec>, sku: Seq<char>, i: int)
    requires
        0 <= i < codecs.len(),
        codecs[i].skus.contains(sku),
        forall|k: int|
            i < k < codecs.len() && (#[trigger] codecs[k]).skus.contains(sku) ==> codecs[k].kind
                != codecs[i].kind,
    ensures
        codec_map(codecs, sku).dom().contains(codecs[i].kind),
        codec_map(codecs, sku)[codecs[i].kind] == codecs[i],
{
    let kind = codecs[i].kind;
    law_map_holds_last_codecs(codecs, sku, kind);
    let k = choose|k: int| #[trigger]
        is_last(codecs, sku, kind, k) && codec_map(codecs, sku)[kind] == codecs[k];
    assert(codecs[k].skus.contains(sku));
}

/// A codec is for its type of value and lists the products that understand it.
pub proof fn law_codecs_of_types(kind: PacketKind, sku: Seq<char>)
    ensures
        codec_for(kind).kind == kind,
        codec_for(kind).skus.contains(sku) <==> registered(kind, sku),
        codec_table().contains(codec_for(kind)),
        codec_table().len() == 19,
{
    lemma_products(kind, sku);
    assert(codec_table()[position(kind)] == codec_for(kind));
}

/// A packet that no codec of the product understands is kept as it is.
pub proof fn law_unread_packet_is_kept(sku: Seq<char>, data: Seq<u8>)
    requires
        forall|kind: PacketKind| registered(kind, sku) ==> #[trigger] decoding(kind, data) is Err,
    ensures
        packet_for_sku(sku, data) == Packet::Generic(data),
{
}

/// A packet that carries a value was read by the codec for that type of value,
/// and the product understands that type.
pub proof fn law_packet_comes_from_codec(sku: Seq<char>, data: Seq<u8>, kind: PacketKind)
    requires
        kind_of(packet_for_sku(sku, data)) == Some(kind),
    ensures
        registered(kind, sku),
        decoding(kind, data) == Ok::<Packet, Error>(packet_for_sku(sku, data)),
{
    if exists|k: PacketKind| registered(k, sku) && #[trigger] decoding(k, data) is Ok {
        let k = choose|k: PacketKind| registered(k, sku) && #[trigger] decoding(k, data) is Ok;
        law_codec_decides(sku, data, k);
        crate::laws::law_codec_keeps_to_its_type(k, data);
    }
}

} // verus!
