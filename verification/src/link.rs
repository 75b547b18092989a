//! The text and counter fields of Mumble's positional-audio shared memory
//! ("MumbleLink"): NUL-terminated UTF-16 strings in fixed-size buffers.
use vstd::prelude::*;
use vstd::string::StringSliceAdditionalSpecFns;

verus! {

/// The UTF-16 code units of one character.
pub open spec fn utf16_char(c: char) -> Seq<u16> {
    let u = c as u32;
    if u < 0x10000 {
        seq![u as u16]
    } else {
        let v = (u - 0x10000) as int;
        seq![(0xd800 + v / 1024) as u16, (0xdc00 + v % 1024) as u16]
    }
}

/// The UTF-16 code units of a text (what `str::encode_utf16` yields).
pub open spec fn utf16(s: Seq<char>) -> Seq<u16>
    decreases s.len(),
{
    if s.len() == 0 {
        Seq::empty()
    } else {
        utf16(s.drop_last()) + utf16_char(s.last())
    }
}

/// `buf` after writing the text `s` into it as a NUL-terminated UTF-16
/// string: as many code units as fit before the last slot, then a NUL;
/// the slots after the NUL keep what they held.
pub open spec fn written_wstr(buf: Seq<u16>, s: Seq<char>) -> Seq<u16> {
    let units = utf16(s);
    let n = if units.len() < buf.len() - 1 { units.len() as int } else { buf.len() - 1 };
    units.take(n) + seq![0u16] + buf.skip(n + 1)
}

/// Writes `s` into `buf` as a NUL-terminated UTF-16 string, cutting it to
/// what fits.
pub fn write_wstr(buf: &mut [u16], s: &str)
    requires
        old(buf)@.len() >= 1,
    ensures
        final(buf)@ == written_wstr(old(buf)@, s@),
{
    let capacity = buf.len() - 1;
    let ghost units = utf16(s@);
    let ghost orig = buf@;
    let mut len: usize = 0;
    for c in it: s.chars()
        invariant
            it.seq() == s@,
            capacity == orig.len() - 1,
            buf@.len() == orig.len(),
            len <= capacity,
            len <= utf16(s@.take(it.index())).len(),
            len < utf16(s@.take(it.index())).len() ==> len == capacity,
            forall|j: int| 0 <= j < len ==> buf@[j] == #[trigger] utf16(s@.take(it.index()))[j],
            forall|j: int| len <= j < orig.len() ==> buf@[j] == #[trigger] orig[j],
    {
        let ghost pre = s@.take(it.index());
        let ghost post = s@.take(it.index() + 1);
        assert(post.drop_last() =~= pre);
        assert(post.last() == c);
        assert(utf16(post) == utf16(pre) + utf16_char(c));
        let u = c as u32;
        if u < 0x10000 {
            if len < capacity {
                buf[len] = u as u16;
                len = len + 1;
            }
        } else {
            let v = u - 0x10000;
            if len < capacity {
                buf[len] = (0xd800 + v / 1024) as u16;
                len = len + 1;
            }
            if len < capacity {
                buf[len] = (0xdc00 + v % 1024) as u16;
                len = len + 1;
            }
        }
    }
    assert(s@.take(s@.len() as int) =~= s@);
    buf[len] = 0;
    proof {
        let n = if units.len() < orig.len() - 1 { units.len() as int } else { orig.len() - 1 };
        assert(len == n);
        assert(buf@ =~= written_wstr(orig, s@));
    }
}

/// The link-memory version this writer fills in.
pub const LINK_VERSION: u32 = 2;

/// The application name shown by Mumble.
pub open spec fn link_name() -> Seq<char> {
    "RMTFAR"@
}

/// The application description shown by Mumble.
pub open spec fn link_description() -> Seq<char> {
    "RMTFAR \u{2014} Arma 3 radio mod for Mumble"@
}

/// `ctx` after copying into it as much of `bytes` as fits.
pub open spec fn copied_prefix(ctx: Seq<u8>, bytes: Seq<u8>) -> Seq<u8> {
    let n = if bytes.len() < ctx.len() { bytes.len() as int } else { ctx.len() as int };
    bytes.take(n) + ctx.skip(n)
}

/// How many bytes of `bytes` fit into a context buffer of `room` bytes.
pub open spec fn fitted_len(bytes: Seq<u8>, room: nat) -> nat {
    if bytes.len() < room { bytes.len() } else { room }
}

/// Fills the text part of one link-memory update for the local player:
/// on the first update (version not yet set) the application name and
/// description and the version; on every update the tick (wrapping), the
/// player's identity and the server's context bytes.
pub fn write_link_text(
    ui_version: &mut u32,
    ui_tick: &mut u32,
    name: &mut [u16],
    description: &mut [u16],
    identity: &mut [u16],
    context_len: &mut u32,
    context: &mut [u8],
    player_id: &str,
    server_id: &str,
)
    requires
        old(name)@.len() >= 1,
        old(description)@.len() >= 1,
        old(identity)@.len() >= 1,
        old(context)@.len() <= u32::MAX,
    ensures
        *final(ui_version) == LINK_VERSION,
        final(name)@ == if *old(ui_version) != LINK_VERSION {
            written_wstr(old(name)@, link_name())
        } else {
            old(name)@
        },
        final(description)@ == if *old(ui_version) != LINK_VERSION {
            written_wstr(old(description)@, link_description())
        } else {
            old(description)@
        },
        *final(ui_tick) == vstd::wrapping::u32_specs::wrapping_add(*old(ui_tick), 1),
        final(identity)@ == written_wstr(old(identity)@, player_id@),
        *final(context_len) == fitted_len(server_id.spec_bytes(), old(context)@.len()),
        final(context)@ == copied_prefix(old(context)@, server_id.spec_bytes()),
{
    if *ui_version != LINK_VERSION {
        write_wstr(name, "RMTFAR");
        write_wstr(description, "RMTFAR \u{2014} Arma 3 radio mod for Mumble");
        *ui_version = LINK_VERSION;
    }
    *ui_tick = ui_tick.wrapping_add(1);
    write_wstr(identity, player_id);
    let bytes = server_id.as_bytes();
    let n = if bytes.len() < context.len() { bytes.len() } else { context.len() };
    let ghost orig = context@;
    let mut i: usize = 0;
    while i < n
        invariant
            n <= bytes@.len(),
            n <= orig.len(),
            context@.len() == orig.len(),
            i <= n,
            forall|j: int| 0 <= j < i ==> context@[j] == bytes@[j],
            forall|j: int| i <= j < orig.len() ==> context@[j] == orig[j],
        decreases n - i,
    {
        context[i] = bytes[i];
        i = i + 1;
    }
    assert(context@ =~= copied_prefix(orig, bytes@));
    *context_len = n as u32;
}

} // verus!
