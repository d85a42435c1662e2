//! Flattening of TLS extensions.
//!
//! An extension is a case with its own payload; the engine takes one
//! record shape for all of them. The encoder writes the registry number
//! and fills the slots that the case needs. A list of (group, key) pairs
//! goes into three slots side by side: the group numbers, the length of
//! each key, and all key bytes in one run. From these the pairs can be
//! recovered.

use vstd::prelude::*;

use crate::client::impersonate::{CurveID, SignatureScheme, TlsExtension};
use crate::ffi::{TlsExtensionFfi, TlsExtensionModel};

verus! {

/// The registry number of the key_share extension.
pub const EXT_TYPE_KEY_SHARE: u16 = 51;

// === What the encoder writes ===

/// The registry numbers of a list of groups.
pub open spec fn curve_codes(curves: Seq<CurveID>) -> Seq<u16> {
    curves.map_values(|c: CurveID| c.spec_code())
}

/// The registry numbers of a list of signature schemes.
pub open spec fn scheme_codes(schemes: Seq<SignatureScheme>) -> Seq<u16> {
    schemes.map_values(|s: SignatureScheme| s.spec_code())
}

/// The group numbers of a list of key shares.
pub open spec fn share_groups(shares: Seq<(CurveID, Vec<u8>)>) -> Seq<u16> {
    shares.map_values(|s: (CurveID, Vec<u8>)| s.0.spec_code())
}

/// The key of each share.
pub open spec fn share_keys(shares: Seq<(CurveID, Vec<u8>)>) -> Seq<Seq<u8>> {
    shares.map_values(|s: (CurveID, Vec<u8>)| s.1@)
}

/// The length of each share's key.
pub open spec fn share_sizes(shares: Seq<(CurveID, Vec<u8>)>) -> Seq<usize> {
    shares.map_values(|s: (CurveID, Vec<u8>)| s.1.len())
}

/// All chunks one after the other.
pub open spec fn concat_all(chunks: Seq<Seq<u8>>) -> Seq<u8>
    decreases chunks.len(),
{
    if chunks.len() == 0 {
        Seq::empty()
    } else {
        concat_all(chunks.drop_last()) + chunks.last()
    }
}

/// The flat record of an extension.
pub open spec fn encode_extension(ext: TlsExtension) -> TlsExtensionModel {
    let bare = TlsExtensionModel::bare(ext.spec_ext_type());
    match ext {
        TlsExtension::SupportedCurves(curves) => TlsExtensionModel {
            vec_u16: curve_codes(curves@),
            ..bare
        },
        TlsExtension::SupportedPoints(points) => TlsExtensionModel { vec_u8: points@, ..bare },
        TlsExtension::SignatureAlgorithms(schemes) => TlsExtensionModel {
            vec_u16: scheme_codes(schemes@),
            ..bare
        },
        TlsExtension::ALPN(protocols) => TlsExtensionModel {
            vec_string: protocols.deep_view(),
            ..bare
        },
        TlsExtension::SupportedVersions(versions) => TlsExtensionModel {
            vec_u16: versions@,
            ..bare
        },
        TlsExtension::PSKModes(modes) => TlsExtensionModel { vec_u8: modes@, ..bare },
        TlsExtension::SignatureAlgorithmsCert(schemes) => TlsExtensionModel {
            vec_u16: scheme_codes(schemes@),
            ..bare
        },
        TlsExtension::KeyShare(shares) => TlsExtensionModel {
            vec_u16: share_groups(shares@),
            vec_u8: concat_all(share_keys(shares@)),
            vec_usize: share_sizes(shares@),
            ..bare
        },
        TlsExtension::RenegotiationInfo(mode, data) => TlsExtensionModel {
            data_isize: mode,
            vec_u8: data@,
            ..bare
        },
        TlsExtension::UtlsExtensionCompressCertificate(algorithms) => TlsExtensionModel {
            vec_u16: algorithms@,
            ..bare
        },
        TlsExtension::UtlsExtensionApplicationSettings(protocols) => TlsExtensionModel {
            vec_string: protocols.deep_view(),
            ..bare
        },
        TlsExtension::FakeExtensionTokenBinding(major, minor, parameters) => TlsExtensionModel {
            vec_u8: seq![major, minor] + parameters@,
            ..bare
        },
        TlsExtension::FakeExtensionDelegatedCredentials(schemes) => TlsExtensionModel {
            vec_u16: scheme_codes(schemes@),
            ..bare
        },
        TlsExtension::FakeOldExtensionChannelID(enabled) => TlsExtensionModel {
            data_bool: enabled,
            ..bare
        },
        TlsExtension::FakeExtensionChannelID(enabled) => TlsExtensionModel {
            data_bool: enabled,
            ..bare
        },
        _ => bare,
    }
}

// === The encoder ===

fn encode_curves(curves: Vec<CurveID>) -> (codes: Vec<u16>)
    ensures
        codes@ == curve_codes(curves@),
{
    let mut codes: Vec<u16> = Vec::with_capacity(curves.len());
    let mut i: usize = 0;
    while i < curves.len()
        invariant
            i <= curves.len(),
            codes@ =~= curve_codes(curves@.take(i as int)),
        decreases curves.len() - i,
    {
        codes.push(curves[i].code());
        i += 1;
    }
    assert(curves@.take(i as int) =~= curves@);
    codes
}

fn encode_schemes(schemes: Vec<SignatureScheme>) -> (codes: Vec<u16>)
    ensures
        codes@ == scheme_codes(schemes@),
{
    let mut codes: Vec<u16> = Vec::with_capacity(schemes.len());
    let mut i: usize = 0;
    while i < schemes.len()
        invariant
            i <= schemes.len(),
            codes@ =~= scheme_codes(schemes@.take(i as int)),
        decreases schemes.len() - i,
    {
        codes.push(schemes[i].code());
        i += 1;
    }
    assert(schemes@.take(i as int) =~= schemes@);
    codes
}

fn encode_protocols(protocols: Vec<&'static str>) -> (names: Vec<String>)
    ensures
        names.deep_view() == protocols.deep_view(),
{
    let mut names: Vec<String> = Vec::with_capacity(protocols.len());
    let mut i: usize = 0;
    while i < protocols.len()
        invariant
            i <= protocols.len(),
            names.len() == i,
            forall|j: int| 0 <= j < i ==> names@[j]@ == protocols@[j]@,
        decreases protocols.len() - i,
    {
        let name: &'static str = protocols[i];
        names.push(name.to_owned());
        i += 1;
    }
    assert(names.deep_view() =~= protocols.deep_view());
    names
}

/// Appends a copy of `src` to `dst`.
fn append_bytes(dst: &mut Vec<u8>, src: &Vec<u8>)
    ensures
        final(dst)@ == old(dst)@ + src@,
{
    let mut i: usize = 0;
    while i < src.len()
        invariant
            i <= src.len(),
            dst@ =~= old(dst)@ + src@.take(i as int),
        decreases src.len() - i,
    {
        dst.push(src[i]);
        i += 1;
    }
    assert(src@.take(i as int) =~= src@);
}

proof fn lemma_concat_all_push(chunks: Seq<Seq<u8>>, chunk: Seq<u8>)
    ensures
        concat_all(chunks.push(chunk)) == concat_all(chunks) + chunk,
{
    assert(chunks.push(chunk).drop_last() =~= chunks);
}

/// A record with every slot at its default but the three that hold the
/// key shares.
fn encode_key_shares(ext_type: u16, shares: Vec<(CurveID, Vec<u8>)>) -> (r: TlsExtensionFfi)
    ensures
        r@ == (TlsExtensionModel {
            vec_u16: share_groups(shares@),
            vec_u8: concat_all(share_keys(shares@)),
            vec_usize: share_sizes(shares@),
            ..TlsExtensionModel::bare(ext_type)
        }),
{
    let mut groups: Vec<u16> = Vec::with_capacity(shares.len());
    let mut bytes: Vec<u8> = Vec::with_capacity(shares.len());
    let mut sizes: Vec<usize> = Vec::with_capacity(shares.len());
    let mut i: usize = 0;
    while i < shares.len()
        invariant
            i <= shares.len(),
            groups@ =~= share_groups(shares@.take(i as int)),
            sizes@ =~= share_sizes(shares@.take(i as int)),
            bytes@ == concat_all(share_keys(shares@.take(i as int))),
        decreases shares.len() - i,
    {
        proof {
            let done = shares@.take(i as int);
            assert(shares@.take(i + 1) =~= done.push(shares@[i as int]));
            assert(share_keys(done.push(shares@[i as int])) =~= share_keys(done).push(
                shares@[i as int].1@,
            ));
            lemma_concat_all_push(share_keys(done), shares@[i as int].1@);
        }
        groups.push(shares[i].0.code());
        sizes.push(shares[i].1.len());
        append_bytes(&mut bytes, &shares[i].1);
        i += 1;
    }
    assert(shares@.take(i as int) =~= shares@);
    let mut r = TlsExtensionFfi::bare(ext_type);
    r.vec_u16 = groups;
    r.vec_u8 = bytes;
    r.vec_usize = sizes;
    r
}

impl From<TlsExtension> for TlsExtensionFfi {
    /// Flattens an extension: the registry number, and the payload in the
    /// slots of its case. Every other slot holds its default.
    fn from(ext: TlsExtension) -> (r: Self)
        ensures
            r@ == encode_extension(ext),
    {
        let mut r = TlsExtensionFfi::bare(ext.ext_type());
        match ext {
            TlsExtension::SupportedCurves(curves) => {
                r.vec_u16 = encode_curves(curves);
            },
            TlsExtension::SupportedPoints(points) => {
                r.vec_u8 = points;
            },
            TlsExtension::SignatureAlgorithms(schemes) => {
                r.vec_u16 = encode_schemes(schemes);
            },
            TlsExtension::ALPN(protocols) => {
                r.vec_string = encode_protocols(protocols);
            },
            TlsExtension::SupportedVersions(versions) => {
                r.vec_u16 = versions;
            },
            TlsExtension::PSKModes(modes) => {
                r.vec_u8 = modes;
            },
            TlsExtension::SignatureAlgorithmsCert(schemes) => {
                r.vec_u16 = encode_schemes(schemes);
            },
            TlsExtension::KeyShare(shares) => {
                r = encode_key_shares(EXT_TYPE_KEY_SHARE, shares);
            },
            TlsExtension::RenegotiationInfo(mode, data) => {
                r.data_isize = mode;
                r.vec_u8 = data;
            },
            TlsExtension::UtlsExtensionCompressCertificate(algorithms) => {
                r.vec_u16 = algorithms;
            },
            TlsExtension::UtlsExtensionApplicationSettings(protocols) => {
                r.vec_string = protocols;
            },
            TlsExtension::FakeExtensionTokenBinding(major, minor, parameters) => {
                let mut bytes: Vec<u8> = Vec::with_capacity(2);
                bytes.push(major);
                bytes.push(minor);
                append_bytes(&mut bytes, &parameters);
                assert(bytes@ =~= seq![major, minor] + parameters@);
                r.vec_u8 = bytes;
            },
            TlsExtension::FakeExtensionDelegatedCredentials(schemes) => {
                r.vec_u16 = encode_schemes(schemes);
            },
            TlsExtension::FakeOldExtensionChannelID(enabled) => {
                r.data_bool = enabled;
            },
            TlsExtension::FakeExtensionChannelID(enabled) => {
                r.data_bool = enabled;
            },
            _ => {},
        }
        r
    }
}

impl vstd::std_specs::convert::FromSpecImpl<TlsExtension> for TlsExtensionFfi {
    /// A record is told by its view; `from` states it in its own clause.
    open spec fn obeys_from_spec() -> bool {
        false
    }

    open spec fn from_spec(ext: TlsExtension) -> Self {
        choose|r: TlsExtensionFfi| r@ == encode_extension(ext)
    }
}

// === Recovering the key shares ===

/// The sum of a list of lengths.
pub open spec fn sum_sizes(sizes: Seq<usize>) -> int
    decreases sizes.len(),
{
    if sizes.len() == 0 {
        0
    } else {
        sum_sizes(sizes.drop_last()) + sizes.last()
    }
}

/// Cuts `bytes` into chunks of the given lengths, from the front.
pub open spec fn split_by_sizes(sizes: Seq<usize>, bytes: Seq<u8>) -> Seq<Seq<u8>>
    decreases sizes.len(),
{
    if sizes.len() == 0 {
        Seq::empty()
    } else {
        let before = sum_sizes(sizes.drop_last());
        split_by_sizes(sizes.drop_last(), bytes).push(
            bytes.subrange(before, before + sizes.last()),
        )
    }
}

/// Whether a record holds a list of key shares: it carries the number of
/// key_share, has one length for each group, and the lengths add up to
/// the bytes it holds.
pub open spec fn holds_key_shares(record: TlsExtensionModel) -> bool {
    &&& record.ext_type == EXT_TYPE_KEY_SHARE
    &&& record.vec_usize.len() == record.vec_u16.len()
    &&& sum_sizes(record.vec_usize) == record.vec_u8.len()
}

/// The key shares that a record holds, each as its group and key bytes;
/// nothing where the record holds none.
pub open spec fn decode_key_shares(record: TlsExtensionModel) -> Option<Seq<(CurveID, Seq<u8>)>> {
    if holds_key_shares(record) {
        let keys = split_by_sizes(record.vec_usize, record.vec_u8);
        Some(
            Seq::new(
                record.vec_u16.len(),
                |i: int| (CurveID::spec_from_code(record.vec_u16[i]), keys[i]),
            ),
        )
    } else {
        None
    }
}

/// Key shares as plain values: each group with its key bytes.
pub open spec fn share_models(shares: Seq<(CurveID, Vec<u8>)>) -> Seq<(CurveID, Seq<u8>)> {
    shares.map_values(|s: (CurveID, Vec<u8>)| (s.0, s.1@))
}

proof fn lemma_sum_sizes_nonnegative(sizes: Seq<usize>)
    ensures
        0 <= sum_sizes(sizes),
    decreases sizes.len(),
{
    if sizes.len() > 0 {
        lemma_sum_sizes_nonnegative(sizes.drop_last());
    }
}

proof fn lemma_sum_sizes_prefix(sizes: Seq<usize>, n: int)
    requires
        0 <= n <= sizes.len(),
    ensures
        sum_sizes(sizes.take(n)) <= sum_sizes(sizes),
    decreases sizes.len() - n,
{
    if n < sizes.len() {
        assert(sizes.take(n + 1).drop_last() =~= sizes.take(n));
        lemma_sum_sizes_prefix(sizes, n + 1);
    } else {
        assert(sizes.take(n) =~= sizes);
    }
}

/// A copy of the bytes of `src` from `from` up to `to`.
fn copy_range(src: &Vec<u8>, from: usize, to: usize) -> (chunk: Vec<u8>)
    requires
        from <= to <= src.len(),
    ensures
        chunk@ == src@.subrange(from as int, to as int),
{
    let mut chunk: Vec<u8> = Vec::with_capacity(to - from);
    let mut i: usize = from;
    while i < to
        invariant
            from <= i <= to <= src.len(),
            chunk@ =~= src@.subrange(from as int, i as int),
        decreases to - i,
    {
        chunk.push(src[i]);
        i += 1;
    }
    chunk
}

impl TlsExtensionFfi {
    /// The key shares that the record holds, in their order: each group
    /// with a copy of its key. `None` unless the record is one of
    /// key_share, with one length for each group and lengths that add up
    /// to the bytes.
    pub fn key_shares(&self) -> (r: Option<Vec<(CurveID, Vec<u8>)>>)
        ensures
            r is Some <==> holds_key_shares(self@),
            r matches Some(shares) ==> Some(share_models(shares@)) == decode_key_shares(self@),
    {
        if self.ext_type != EXT_TYPE_KEY_SHARE || self.vec_usize.len() != self.vec_u16.len() {
            return None;
        }
        let mut shares: Vec<(CurveID, Vec<u8>)> = Vec::with_capacity(self.vec_u16.len());
        let mut offset: usize = 0;
        let mut i: usize = 0;
        while i < self.vec_usize.len()
            invariant
                i <= self.vec_usize.len(),
                self.vec_usize.len() == self.vec_u16.len(),
                offset == sum_sizes(self.vec_usize@.take(i as int)),
                offset <= self.vec_u8.len(),
                shares.len() == i,
                forall|j: int|
                    0 <= j < i ==> (#[trigger] shares@[j]).0 == CurveID::spec_from_code(
                        self.vec_u16@[j],
                    ),
                forall|j: int|
                    0 <= j < i ==> (#[trigger] shares@[j]).1@ == split_by_sizes(
                        self.vec_usize@.take(i as int),
                        self.vec_u8@,
                    )[j],
                split_by_sizes(self.vec_usize@.take(i as int), self.vec_u8@).len() == i,
            decreases self.vec_usize.len() - i,
        {
            let size = self.vec_usize[i];
            proof {
                assert(self.vec_usize@.take(i + 1).drop_last() =~= self.vec_usize@.take(i as int));
                lemma_sum_sizes_prefix(self.vec_usize@, i + 1);
            }
            if size > self.vec_u8.len() - offset {
                return None;
            }
            let key = copy_range(&self.vec_u8, offset, offset + size);
            shares.push((CurveID::from_code(self.vec_u16[i]), key));
            offset += size;
            i += 1;
        }
        proof {
            assert(self.vec_usize@.take(i as int) =~= self.vec_usize@);
        }
        if offset != self.vec_u8.len() {
            return None;
        }
        proof {
            assert(share_models(shares@) =~= decode_key_shares(self@)->0);
        }
        Some(shares)
    }
}

// === Laws ===

proof fn lemma_split_concat(chunks: Seq<Seq<u8>>, sizes: Seq<usize>)
    requires
        sizes.len() == chunks.len(),
        forall|i: int| 0 <= i < chunks.len() ==> sizes[i] == (#[trigger] chunks[i]).len(),
    ensures
        sum_sizes(sizes) == concat_all(chunks).len(),
        split_by_sizes(sizes, concat_all(chunks)) == chunks,
    decreases chunks.len(),
{
    if chunks.len() > 0 {
        let head = chunks.drop_last();
        let head_sizes = sizes.drop_last();
        lemma_split_concat(head, head_sizes);
        lemma_split_prefix(head_sizes, concat_all(head), chunks.last());
        assert(concat_all(chunks).subrange(
            concat_all(head).len() as int,
            concat_all(head).len() + sizes.last(),
        ) =~= chunks.last());
        assert(split_by_sizes(sizes, concat_all(chunks)) =~= chunks);
    } else {
        assert(split_by_sizes(sizes, concat_all(chunks)) =~= chunks);
    }
}

/// Bytes behind the part that the lengths cover do not change the split.
proof fn lemma_split_prefix(sizes: Seq<usize>, bytes: Seq<u8>, more: Seq<u8>)
    requires
        sum_sizes(sizes) <= bytes.len(),
    ensures
        split_by_sizes(sizes, bytes + more) == split_by_sizes(sizes, bytes),
    decreases sizes.len(),
{
    if sizes.len() > 0 {
        lemma_sum_sizes_nonnegative(sizes.drop_last());
        lemma_split_prefix(sizes.drop_last(), bytes, more);
        let before = sum_sizes(sizes.drop_last());
        assert((bytes + more).subrange(before, before + sizes.last()) =~= bytes.subrange(
            before,
            before + sizes.last(),
        ));
    }
}

/// Encoding a list of key shares and decoding the record gives the list
/// back: as many shares, in the same order, each with its key bytes and
/// with the group that its number names. The record has one length for
/// each group, and the lengths add up to the bytes it holds.
///
/// A group comes back as the very value that went in unless that was a
/// `Custom` carrying the number of a named group, which comes back as the
/// named group.
pub proof fn lemma_key_share_round_trip(shares: Vec<(CurveID, Vec<u8>)>)
    ensures
        ({
            let record = encode_extension(TlsExtension::KeyShare(shares));
            &&& record.vec_usize.len() == record.vec_u16.len()
            &&& sum_sizes(record.vec_usize) == record.vec_u8.len()
            &&& decode_key_shares(record) matches Some(decoded)
            &&& decoded.len() == shares@.len()
            &&& forall|i: int|
                0 <= i < shares@.len() ==> (#[trigger] decoded[i]).1 == shares@[i].1@
                    && decoded[i].0.spec_code() == shares@[i].0.spec_code() && decoded[i].0
                    == CurveID::spec_from_code(shares@[i].0.spec_code())
            &&& (forall|i: int| 0 <= i < shares@.len() ==> (#[trigger] shares@[i]).0.is_canonical())
                ==> decoded == share_models(shares@)
        }),
{
    let record = encode_extension(TlsExtension::KeyShare(shares));
    lemma_split_concat(share_keys(shares@), share_sizes(shares@));
    let decoded = decode_key_shares(record)->0;
    if forall|i: int| 0 <= i < shares@.len() ==> (#[trigger] shares@[i]).0.is_canonical() {
        assert(decoded =~= share_models(shares@));
    }
}

} // verus!
