//! The radiance sound definition (RSD) format, which packs the base game's sound
//! effects: a header, a list of named sprites with their start offsets, and the
//! encoded audio.
//!
//! Layout: a big endian `u32` header, little endian `u32` major and minor version
//! numbers, then per sprite a little endian `f32` offset and a little endian `u32`
//! name length followed by that many bytes of UTF-8 name; a name length of zero ends
//! the list and its offset is the end of the last sprite. Then a little endian `u32`
//! audio length, the audio bytes, and nothing after them.
//!
//! Offsets are kept as the raw bits of their `f32` values.
use vstd::prelude::*;
use vstd::utf8::{decode_utf8, valid_utf8};

use core::str::Utf8Error;

verus! {

#[verifier::external_type_specification]
#[verifier::external_body]
pub struct ExUtf8Error(Utf8Error);

/// An error indicating failure to parse base game asset metadata.
#[allow(inconsistent_fields)]
#[derive(Debug)]
pub enum TetrioAssetMetadataParseFailure {
    /// Tried to parse non-UTF8 data as UTF8.
    UTF8Error,
    /// The regular expression failed to extract the sound effects atlas.
    SoundEffectsAtlasRegex,
    /// The sound effects atlas could not be parsed.
    SoundEffectsAtlasParse,
    /// Unexpected end of data while parsing the sound effects atlas.
    SoundEffectsAtlasEOF,
    /// Expected the end of data at `position`, but the data is `length` bytes long.
    SoundEffectsAtlasExpectedEOF { position: usize, length: usize },
    /// The name of sprite `sprite` is not valid UTF-8.
    SoundEffectsAtlasSpriteNameUTF8Error { sprite: usize, error: Utf8Error },
    /// The name of sprite `sprite` is `length` bytes long, beyond sane limits.
    SoundEffectsAtlasNameTooLong { sprite: usize, length: u32 },
}

/// Calls `core::str::from_utf8`; trusted to succeed exactly on valid UTF-8 and then to
/// decode it as UTF-8 decodes.
#[verifier::external_body]
fn utf8_str(bytes: &[u8]) -> (r: Result<&str, Utf8Error>)
    ensures
        r is Ok <==> valid_utf8(bytes@),
        r matches Ok(s) ==> s@ == decode_utf8(bytes@),
{
    core::str::from_utf8(bytes)
}

/// The little endian `u32` at position `i`.
pub open spec fn le_u32(b: Seq<u8>, i: int) -> u32 {
    (b[i] as int + b[i + 1] as int * 0x100 + b[i + 2] as int * 0x10000 + b[i + 3] as int
        * 0x1000000) as u32
}

/// The big endian `u32` at position `i`.
pub open spec fn be_u32(b: Seq<u8>, i: int) -> u32 {
    (b[i + 3] as int + b[i + 2] as int * 0x100 + b[i + 1] as int * 0x10000 + b[i] as int
        * 0x1000000) as u32
}

/// A bounded reader over a byte buffer.
pub struct AtlasReadHelper<'data> {
    pub buffer: &'data [u8],
    pub position: usize,
}

/// The position after advancing `pos` by `n`, wrapping as machine arithmetic does.
pub open spec fn advanced(pos: usize, n: usize) -> usize {
    if pos + n <= usize::MAX {
        (pos + n) as usize
    } else {
        (pos + n - usize::MAX - 1) as usize
    }
}

impl<'data> AtlasReadHelper<'data> {
    /// Reads the next four bytes, advancing the position past them.
    pub fn read(&mut self) -> (r: Result<[u8; 4], TetrioAssetMetadataParseFailure>)
        ensures
            final(self).buffer == old(self).buffer,
            final(self).position == advanced(old(self).position, 4),
            r is Ok <==> old(self).position + 4 <= old(self).buffer@.len(),
            r matches Ok(a) ==> a@ == old(self).buffer@.subrange(
                old(self).position as int,
                old(self).position + 4,
            ),
            r matches Err(e) ==> e is SoundEffectsAtlasEOF,
    {
        let start = self.position;
        let len = self.buffer.len();
        self.position = if start <= usize::MAX - 4 {
            start + 4
        } else {
            start - (usize::MAX - 4) - 1
        };
        if start <= self.position && self.position <= len {
            let s = &self.buffer[start..self.position];
            let a: [u8; 4] = [s[0], s[1], s[2], s[3]];
            assert(a@ =~= s@);
            Ok(a)
        } else {
            Err(TetrioAssetMetadataParseFailure::SoundEffectsAtlasEOF)
        }
    }

    /// Reads the next `n` bytes, advancing the position past them.
    pub fn read_n(&mut self, n: u32) -> (r: Result<&'data [u8], TetrioAssetMetadataParseFailure>)
        ensures
            final(self).buffer == old(self).buffer,
            final(self).position == advanced(old(self).position, n as usize),
            r is Ok <==> old(self).position + n <= old(self).buffer@.len(),
            r matches Ok(a) ==> a@ == old(self).buffer@.subrange(
                old(self).position as int,
                old(self).position + n,
            ),
            r matches Err(e) ==> e is SoundEffectsAtlasEOF,
    {
        let n = n as usize;
        let start = self.position;
        let len = self.buffer.len();
        self.position = if start <= usize::MAX - n {
            start + n
        } else {
            start - (usize::MAX - n) - 1
        };
        if start <= self.position && self.position <= len {
            Ok(&self.buffer[start..self.position])
        } else {
            Err(TetrioAssetMetadataParseFailure::SoundEffectsAtlasEOF)
        }
    }

    /// Succeeds exactly when the whole buffer has been read.
    pub fn assert_eof(&self) -> (r: Result<(), TetrioAssetMetadataParseFailure>)
        ensures
            r is Ok <==> self.position >= self.buffer@.len(),
            r matches Err(e) ==> e == (TetrioAssetMetadataParseFailure::SoundEffectsAtlasExpectedEOF {
                position: self.position,
                length: self.buffer@.len() as usize,
            }),
    {
        if self.position < self.buffer.len() {
            Err(
                TetrioAssetMetadataParseFailure::SoundEffectsAtlasExpectedEOF {
                    position: self.position,
                    length: self.buffer.len(),
                },
            )
        } else {
            Ok(())
        }
    }
}

/// A sprite as it appears in the sprite list: its name and the raw bits of its offset.
pub struct ListedSprite {
    pub name: Seq<char>,
    pub offset: u32,
}

/// Why a parse failed, leaving aside the UTF-8 error value itself.
#[allow(inconsistent_fields)]
pub enum ParseFault {
    EOF,
    ExpectedEOF { position: int, length: int },
    SpriteNameUTF8 { sprite: int },
    NameTooLong { sprite: int, length: u32 },
}

/// The outcome of reading the sprite list.
pub enum SpriteScan {
    Done { sprites: Seq<ListedSprite>, last_offset: u32, pos: int },
    Failed(ParseFault),
}

/// Reads the sprite list from position `pos` on, after the sprites `acc` already read.
pub open spec fn scan_sprites(b: Seq<u8>, pos: int, acc: Seq<ListedSprite>) -> SpriteScan
    decreases b.len() - pos,
{
    if pos < 0 || pos + 8 > b.len() {
        SpriteScan::Failed(ParseFault::EOF)
    } else {
        let offset = le_u32(b, pos);
        let name_len = le_u32(b, pos + 4);
        if name_len == 0 {
            SpriteScan::Done { sprites: acc, last_offset: offset, pos: pos + 8 }
        } else if name_len > 1000 {
            SpriteScan::Failed(ParseFault::NameTooLong { sprite: acc.len() as int, length: name_len })
        } else if pos + 8 + name_len > b.len() {
            SpriteScan::Failed(ParseFault::EOF)
        } else if !valid_utf8(b.subrange(pos + 8, pos + 8 + name_len)) {
            SpriteScan::Failed(ParseFault::SpriteNameUTF8 { sprite: acc.len() as int })
        } else {
            scan_sprites(
                b,
                pos + 8 + name_len,
                acc.push(
                    ListedSprite {
                        name: decode_utf8(b.subrange(pos + 8, pos + 8 + name_len)),
                        offset,
                    },
                ),
            )
        }
    }
}

/// The parsed contents of a sound definition.
pub struct SpecSoundDefinition {
    pub version: (u32, u32),
    /// Each sprite's name, offset bits and the offset bits of where it ends.
    pub sprites: Seq<(Seq<char>, u32, u32)>,
    pub audio: Seq<u8>,
}

/// The offset at which sprite `i` of the list ends: the next sprite's offset, or the list's end offset.
pub open spec fn sprite_end(listed: Seq<ListedSprite>, last_offset: u32, i: int) -> u32 {
    if i + 1 < listed.len() {
        listed[i + 1].offset
    } else {
        last_offset
    }
}

/// The sprites with their end offsets.
pub open spec fn with_ends(listed: Seq<ListedSprite>, last_offset: u32) -> Seq<(Seq<char>, u32, u32)> {
    Seq::new(
        listed.len(),
        |i: int| (listed[i].name, listed[i].offset, sprite_end(listed, last_offset, i)),
    )
}

/// What parsing a sound definition gives.
pub open spec fn spec_parse_rsd(b: Seq<u8>) -> Result<SpecSoundDefinition, ParseFault> {
    if b.len() < 12 {
        Err(ParseFault::EOF)
    } else {
        match scan_sprites(b, 12, Seq::empty()) {
            SpriteScan::Failed(f) => Err(f),
            SpriteScan::Done { sprites, last_offset, pos } => {
                if pos + 4 > b.len() {
                    Err(ParseFault::EOF)
                } else {
                    let audio_len = le_u32(b, pos);
                    let end = pos + 4 + audio_len;
                    if end > b.len() {
                        Err(ParseFault::EOF)
                    } else if end < b.len() {
                        Err(ParseFault::ExpectedEOF { position: end, length: b.len() as int })
                    } else {
                        Ok(
                            SpecSoundDefinition {
                                version: (le_u32(b, 4), le_u32(b, 8)),
                                sprites: with_ends(sprites, last_offset),
                                audio: b.subrange(pos + 4, end),
                            },
                        )
                    }
                }
            },
        }
    }
}

/// In a parsed sound definition each sprite ends where the next one begins, and the last
/// one ends at the offset that closes the sprite list.
pub proof fn lemma_sprites_end_where_next_begins(b: Seq<u8>)
    ensures
        spec_parse_rsd(b) matches Ok(s) ==> forall|i: int|
            0 <= i && i + 1 < s.sprites.len() ==> (#[trigger] s.sprites[i]).2 == s.sprites[i + 1].1,
        spec_parse_rsd(b) matches Ok(s) ==> (s.sprites.len() > 0 ==> (scan_sprites(b, 12, Seq::empty()) matches SpriteScan::Done {
            last_offset,
            ..
        } && s.sprites.last().2 == last_offset)),
{
}

/// A parsed sound definition.
pub struct RadianceSoundDefinition<'a> {
    /// The version of the format that was parsed, as (major, minor).
    pub version: (u32, u32),
    /// The sound effect sprites.
    pub sprites: Vec<RadianceSprite<'a>>,
    /// The encoded audio data.
    pub audio_buffer: &'a [u8],
}

/// One sound effect sprite.
pub struct RadianceSprite<'a> {
    /// The name of the sprite.
    pub name: &'a str,
    /// The raw bits of the `f32` offset of the sprite in the audio, in seconds.
    pub offset: u32,
    /// The raw bits of the `f32` offset at which the sprite ends, in seconds.
    pub end: u32,
}

/// A parse error agrees with a fault.
pub open spec fn failure_matches(e: TetrioAssetMetadataParseFailure, f: ParseFault) -> bool {
    match f {
        ParseFault::EOF => e is SoundEffectsAtlasEOF,
        ParseFault::ExpectedEOF { position, length } => e matches TetrioAssetMetadataParseFailure::SoundEffectsAtlasExpectedEOF {
            position: p,
            length: l,
        } && p == position && l == length,
        ParseFault::SpriteNameUTF8 { sprite } => e matches TetrioAssetMetadataParseFailure::SoundEffectsAtlasSpriteNameUTF8Error {
            sprite: s,
            ..
        } && s == sprite,
        ParseFault::NameTooLong { sprite, length } => e matches TetrioAssetMetadataParseFailure::SoundEffectsAtlasNameTooLong {
            sprite: s,
            length: l,
        } && s == sprite && l == length,
    }
}

/// A parsed definition agrees with its specification.
pub open spec fn definition_matches(d: RadianceSoundDefinition, s: SpecSoundDefinition) -> bool {
    &&& d.version == s.version
    &&& d.audio_buffer@ == s.audio
    &&& d.sprites@.len() == s.sprites.len()
    &&& forall|i: int|
        0 <= i < s.sprites.len() ==> (#[trigger] d.sprites@[i]).name@ == s.sprites[i].0
            && d.sprites@[i].offset == s.sprites[i].1 && d.sprites@[i].end == s.sprites[i].2
}

/// Reads four bytes as a little endian `u32`.
pub fn u32_le(a: [u8; 4]) -> (r: u32)
    ensures
        r == le_u32(a@, 0),
{
    a[0] as u32 + a[1] as u32 * 0x100 + a[2] as u32 * 0x10000 + a[3] as u32 * 0x1000000
}

proof fn lemma_le_u32_at(a: [u8; 4], b: Seq<u8>, i: int)
    requires
        0 <= i,
        i + 4 <= b.len(),
        a@ == b.subrange(i, i + 4),
    ensures
        le_u32(a@, 0) == le_u32(b, i),
{
    assert(a@[0] == b[i] && a@[1] == b[i + 1] && a@[2] == b[i + 2] && a@[3] == b[i + 3]);
}

/// Parses a sound definition.
pub fn parse_radiance_sound_definition(rsd: &[u8]) -> (r: Result<
    RadianceSoundDefinition,
    TetrioAssetMetadataParseFailure,
>)
    ensures
        match (r, spec_parse_rsd(rsd@)) {
            (Ok(d), Ok(s)) => definition_matches(d, s),
            (Err(e), Err(f)) => failure_matches(e, f),
            _ => false,
        },
        r matches Ok(d) ==> forall|i: int|
            0 <= i && i + 1 < d.sprites@.len() ==> (#[trigger] d.sprites@[i]).end == d.sprites@[i + 1].offset,
{
    let ghost b = rsd@;
    let total = rsd.len();
    let mut buf = AtlasReadHelper { buffer: rsd, position: 0 };
    match buf.read() {
        Ok(_) => {},
        Err(e) => return Err(e),
    }
    let major = match buf.read() {
        Ok(a) => {
            proof {
                lemma_le_u32_at(a, b, 4);
            }
            u32_le(a)
        },
        Err(e) => return Err(e),
    };
    let minor = match buf.read() {
        Ok(a) => {
            proof {
                lemma_le_u32_at(a, b, 8);
            }
            u32_le(a)
        },
        Err(e) => return Err(e),
    };
    assert(buf.position == 12);
    let mut listed: Vec<(&str, u32)> = Vec::new();
    let ghost mut acc: Seq<ListedSprite> = Seq::empty();
    let mut last_offset: u32 = 0;
    loop
        invariant_except_break
            buf.buffer == rsd,
            b == rsd@,
            total == b.len(),
            12 <= buf.position <= b.len(),
            scan_sprites(b, 12, Seq::empty()) == scan_sprites(b, buf.position as int, acc),
            listed@.len() == acc.len(),
            forall|k: int|
                0 <= k < acc.len() ==> (#[trigger] listed@[k]).0@ == acc[k].name && listed@[k].1
                    == acc[k].offset,
        ensures
            buf.buffer == rsd,
            b == rsd@,
            total == b.len(),
            buf.position <= b.len(),
            scan_sprites(b, 12, Seq::empty()) == (SpriteScan::Done {
                sprites: acc,
                last_offset,
                pos: buf.position as int,
            }),
            listed@.len() == acc.len(),
            forall|k: int|
                0 <= k < acc.len() ==> (#[trigger] listed@[k]).0@ == acc[k].name && listed@[k].1
                    == acc[k].offset,
        decreases b.len() - buf.position,
    {
        let ghost pos = buf.position as int;
        let offset = match buf.read() {
            Ok(a) => {
                proof {
                    lemma_le_u32_at(a, b, pos);
                }
                u32_le(a)
            },
            Err(e) => return Err(e),
        };
        let name_len = match buf.read() {
            Ok(a) => {
                proof {
                    lemma_le_u32_at(a, b, pos + 4);
                }
                u32_le(a)
            },
            Err(e) => return Err(e),
        };
        if name_len == 0 {
            last_offset = offset;
            break ;
        }
        if name_len > 1000 {
            return Err(
                TetrioAssetMetadataParseFailure::SoundEffectsAtlasNameTooLong {
                    sprite: listed.len(),
                    length: name_len,
                },
            );
        }
        let bytes = match buf.read_n(name_len) {
            Ok(x) => x,
            Err(e) => return Err(e),
        };
        let name = match utf8_str(bytes) {
            Ok(n) => n,
            Err(error) => {
                return Err(
                    TetrioAssetMetadataParseFailure::SoundEffectsAtlasSpriteNameUTF8Error {
                        sprite: listed.len(),
                        error,
                    },
                );
            },
        };
        listed.push((name, offset));
        proof {
            acc = acc.push(ListedSprite { name: name@, offset });
        }
    }
    let ghost pos = buf.position as int;
    let audio_len = match buf.read() {
        Ok(a) => {
            proof {
                lemma_le_u32_at(a, b, pos);
            }
            u32_le(a)
        },
        Err(e) => return Err(e),
    };
    let audio_buffer = match buf.read_n(audio_len) {
        Ok(x) => x,
        Err(e) => return Err(e),
    };
    match buf.assert_eof() {
        Ok(()) => {},
        Err(e) => return Err(e),
    }
    let n = listed.len();
    let mut sprites: Vec<RadianceSprite> = Vec::new();
    let mut i: usize = 0;
    while i < n
        invariant
            n == listed@.len(),
            n == acc.len(),
            i <= n,
            sprites@.len() == i,
            forall|k: int|
                0 <= k < acc.len() ==> (#[trigger] listed@[k]).0@ == acc[k].name && listed@[k].1
                    == acc[k].offset,
            forall|k: int|
                0 <= k < i ==> (#[trigger] sprites@[k]).name@ == acc[k].name && sprites@[k].offset
                    == acc[k].offset && sprites@[k].end == sprite_end(acc, last_offset, k),
        decreases n - i,
    {
        let end = if i + 1 < n {
            listed[i + 1].1
        } else {
            last_offset
        };
        sprites.push(RadianceSprite { name: listed[i].0, offset: listed[i].1, end });
        i = i + 1;
    }
    let d = RadianceSoundDefinition { version: (major, minor), sprites, audio_buffer };
    proof {
        let s = spec_parse_rsd(b);
        let w = with_ends(acc, last_offset);
        assert forall|k: int| 0 <= k < w.len() implies (#[trigger] d.sprites@[k]).name@ == w[k].0
            && d.sprites@[k].offset == w[k].1 && d.sprites@[k].end == w[k].2 by {}
        lemma_sprites_end_where_next_begins(b);
        assert forall|k: int| 0 <= k && k + 1 < d.sprites@.len() implies (#[trigger] d.sprites@[k]).end
            == d.sprites@[k + 1].offset by {
            assert(w[k].2 == w[k + 1].1);
        }
    }
    Ok(d)
}

} // verus!
