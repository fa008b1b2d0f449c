//! Compression codecs for native protocol frames.

use vstd::prelude::*;

use crate::sys;

verus! {

/// Compression algorithm used for native protocol frames.
#[derive(Clone, Copy, Debug, PartialEq, Eq, Structural)]
pub enum Compression {
    /// Disables compression and does not require a [`Codec`].
    Uncompressed,
    /// Uses LZ4 and requires corresponding callbacks.
    Lz4,
    /// Uses Zstandard and requires corresponding callbacks.
    Zstd,
}

impl Default for Compression {
    fn default() -> (compression: Self)
        ensures
            compression == Compression::Uncompressed,
    {
        Compression::Uncompressed
    }
}

impl Compression {
    /// Code of an algorithm.
    pub open spec fn spec_code(self) -> sys::chc_compression {
        match self {
            Compression::Uncompressed => sys::CHC_COMP_NONE,
            Compression::Lz4 => sys::CHC_COMP_LZ4,
            Compression::Zstd => sys::CHC_COMP_ZSTD,
        }
    }

    /// Name of the variant, as `Debug` writes it.
    pub open spec fn spec_name(self) -> Seq<char> {
        match self {
            Compression::Uncompressed => "Uncompressed"@,
            Compression::Lz4 => "Lz4"@,
            Compression::Zstd => "Zstd"@,
        }
    }

    /// Code of this algorithm.
    pub fn code(self) -> (code: sys::chc_compression)
        ensures
            code == self.spec_code(),
    {
        match self {
            Compression::Uncompressed => sys::CHC_COMP_NONE,
            Compression::Lz4 => sys::CHC_COMP_LZ4,
            Compression::Zstd => sys::CHC_COMP_ZSTD,
        }
    }

    /// Name of the variant, as `Debug` writes it.
    pub fn name(self) -> (name: &'static str)
        ensures
            name@ == self.spec_name(),
    {
        match self {
            Compression::Uncompressed => "Uncompressed",
            Compression::Lz4 => "Lz4",
            Compression::Zstd => "Zstd",
        }
    }
}

/// Two algorithms never share a code.
pub proof fn law_compression_codes_differ(a: Compression, b: Compression)
    ensures
        a.spec_code() == b.spec_code() <==> a == b,
{
}

/// Compression callbacks.
pub struct Codec {
    pub raw: sys::chc_codec,
}

impl Codec {
    /// Creates a codec without compression callbacks.
    ///
    /// Codec only supports [`Compression::Uncompressed`] until required callbacks are
    /// installed through [`raw_mut`](Codec::raw_mut).
    /// [`ClientOpts::prepare`](crate::ClientOpts::prepare) rejects missing
    /// callbacks.
    pub fn empty() -> (codec: Self)
        ensures
            codec.raw == (sys::chc_codec {
                lz4_compress: false,
                lz4_decompress: false,
                zstd_compress: false,
                zstd_decompress: false,
                lz4_bound: false,
                zstd_bound: false,
            }),
    {
        Codec {
            raw: sys::chc_codec {
                lz4_compress: false,
                lz4_decompress: false,
                zstd_compress: false,
                zstd_decompress: false,
                lz4_bound: false,
                zstd_bound: false,
            },
        }
    }

    /// Creates a codec from a callback table.
    pub fn from_raw(raw: sys::chc_codec) -> (codec: Self)
        ensures
            codec.raw == raw,
    {
        Codec { raw }
    }

    /// Returns mutable access to callback table.
    pub fn raw_mut(&mut self) -> (raw: &mut sys::chc_codec)
        ensures
            *raw == old(self).raw,
            final(self).raw == *final(raw),
    {
        &mut self.raw
    }

    /// Whether all callbacks required by `compression` are present.
    pub open spec fn spec_supports(raw: sys::chc_codec, compression: Compression) -> bool {
        match compression {
            Compression::Uncompressed => true,
            Compression::Lz4 => raw.lz4_compress && raw.lz4_decompress && raw.lz4_bound,
            Compression::Zstd => raw.zstd_compress && raw.zstd_decompress && raw.zstd_bound,
        }
    }

    /// Returns whether all callbacks required by `compression` are present.
    pub fn supports(&self, compression: Compression) -> (answer: bool)
        ensures
            answer == Codec::spec_supports(self.raw, compression),
    {
        match compression {
            Compression::Uncompressed => true,
            Compression::Lz4 => {
                self.raw.lz4_compress && self.raw.lz4_decompress && self.raw.lz4_bound
            },
            Compression::Zstd => {
                self.raw.zstd_compress && self.raw.zstd_decompress && self.raw.zstd_bound
            },
        }
    }
}

/// Each algorithm has the code that is called after it, and its own name.
pub proof fn law_code_of_each_algorithm(
    compression: Compression,
    code: sys::chc_compression,
    name: &'static str,
)
    requires
        call_ensures(Compression::code, (compression,), code),
        call_ensures(Compression::name, (compression,), name),
    ensures
        compression == Compression::Uncompressed <==> code == sys::CHC_COMP_NONE,
        compression == Compression::Lz4 <==> code == sys::CHC_COMP_LZ4,
        compression == Compression::Zstd <==> code == sys::CHC_COMP_ZSTD,
        compression == Compression::Uncompressed ==> name@ == "Uncompressed"@,
        compression == Compression::Lz4 ==> name@ == "Lz4"@,
        compression == Compression::Zstd ==> name@ == "Zstd"@,
{
}

/// A codec serves an algorithm exactly where it can compress, decompress and
/// bound the size with it. No callback is needed where nothing is compressed.
pub proof fn law_codec_serves_what_it_has(codec: Codec, compression: Compression, answer: bool)
    requires
        call_ensures(Codec::supports, (&codec, compression), answer),
    ensures
        compression == Compression::Uncompressed ==> answer,
        compression == Compression::Lz4 ==> (answer <==> codec.raw.lz4_compress
            && codec.raw.lz4_decompress && codec.raw.lz4_bound),
        compression == Compression::Zstd ==> (answer <==> codec.raw.zstd_compress
            && codec.raw.zstd_decompress && codec.raw.zstd_bound),
{
}

/// A codec has the callbacks of the table it was made from, and an empty one
/// has none and serves no algorithm.
pub proof fn law_codec_keeps_its_table(
    table: sys::chc_codec,
    codec: Codec,
    empty: Codec,
    compression: Compression,
    answer: bool,
)
    requires
        call_ensures(Codec::from_raw, (table,), codec),
        call_ensures(Codec::empty, (), empty),
        call_ensures(Codec::supports, (&empty, compression), answer),
    ensures
        codec.raw == table,
        !empty.raw.lz4_compress && !empty.raw.lz4_decompress && !empty.raw.lz4_bound,
        !empty.raw.zstd_compress && !empty.raw.zstd_decompress && !empty.raw.zstd_bound,
        answer <==> compression == Compression::Uncompressed,
{
}

/// What is written through the access to the table is in the codec.
pub proof fn law_table_is_changed_in_place(codec: &mut Codec, raw: &mut sys::chc_codec)
    requires
        call_ensures(Codec::raw_mut, (codec,), raw),
    ensures
        *old(raw) == old(codec).raw,
        final(codec).raw == *final(raw),
{
}

/// Nothing is compressed unless an algorithm is selected.
pub proof fn law_default_is_uncompressed(compression: Compression)
    requires
        call_ensures(<Compression as Default>::default, (), compression),
    ensures
        compression == Compression::Uncompressed,
{
}

} // verus!
