//! Multi-display enumeration: the display position overlay pushed from ArkTS
//! and the assembly of display descriptions from what the display manager
//! reports.

use vstd::prelude::*;

verus! {

/// Name for what `serde_json::from_str::<Vec<(u32, i32, i32)>>` makes of
/// `text`: the parsed `[[id, x, y], ...]` entries, or the `Display` text of
/// the error when `text` is not such a JSON array.
pub uninterp spec fn json_display_layout(text: Seq<char>) -> Result<Seq<(u32, i32, i32)>, Seq<char>>;

/// Name for the text `String::from_utf8_lossy` makes of `bytes`.
pub uninterp spec fn utf8_lossy(bytes: Seq<u8>) -> Seq<char>;

/// Every byte is ASCII.
pub open spec fn is_ascii_bytes(bytes: Seq<u8>) -> bool {
    forall|i: int| 0 <= i < bytes.len() ==> bytes[i] < 128
}

/// ASCII bytes read as the characters they encode.
pub open spec fn ascii_chars(bytes: Seq<u8>) -> Seq<char> {
    bytes.map_values(|b: u8| b as char)
}

/// Calls `serde_json::from_str::<Vec<(u32, i32, i32)>>(text)`, the error
/// turned into its `Display` text. Claims only that the result is the one
/// `json_display_layout` names.
#[verifier::external_body]
fn parse_layout_json(text: &str) -> (r: Result<Vec<(u32, i32, i32)>, String>)
    ensures
        match r {
            Ok(entries) => json_display_layout(text@) == Ok::<Seq<(u32, i32, i32)>, Seq<char>>(entries@),
            Err(msg) => json_display_layout(text@) == Err::<Seq<(u32, i32, i32)>, Seq<char>>(msg@),
        },
{
    match serde_json::from_str::<Vec<(u32, i32, i32)>>(text) {
        Ok(entries) => Ok(entries),
        Err(e) => Err(e.to_string()),
    }
}

/// Calls `String::from_utf8_lossy(bytes)` and takes the owned string.
/// Claims that the result is the one `utf8_lossy` names and two facts of the
/// conversion std documents (valid UTF-8 is kept, every invalid sequence
/// becomes U+FFFD):
/// - ASCII bytes come back as the same characters;
/// - bytes holding no 0x00 give no U+0000, since in UTF-8 that character is
///   encoded by the single byte 0x00 alone.
#[verifier::external_body]
fn string_from_utf8_lossy(bytes: &[u8]) -> (s: String)
    ensures
        s@ == utf8_lossy(bytes@),
        is_ascii_bytes(bytes@) ==> s@ == ascii_chars(bytes@),
        !bytes@.contains(0u8) ==> !s@.contains('\0'),
{
    String::from_utf8_lossy(bytes).into_owned()
}

/// Display positions `(id, x, y)` in physical pixels, as last pushed from
/// ArkTS; replaced wholesale on every push.
#[derive(Clone, Debug, Default)]
pub struct DisplayLayout {
    entries: Vec<(u32, i32, i32)>,
}

impl View for DisplayLayout {
    type V = Seq<(u32, i32, i32)>;

    closed spec fn view(&self) -> Seq<(u32, i32, i32)> {
        self.entries@
    }
}

impl DisplayLayout {
    /// A layout that knows no display.
    pub fn new() -> (layout: DisplayLayout)
        ensures
            layout@ == Seq::<(u32, i32, i32)>::empty(),
    {
        DisplayLayout { entries: Vec::new() }
    }

    /// A layout holding `entries`, in that order.
    pub fn from_entries(entries: Vec<(u32, i32, i32)>) -> (layout: DisplayLayout)
        ensures
            layout@ == entries@,
    {
        DisplayLayout { entries }
    }

    /// Replaces the whole layout with `parsed` when there is one; `None`
    /// (a push that did not parse) leaves the layout as it was. Returns
    /// whether the layout was replaced.
    pub fn replace_with(&mut self, parsed: Option<Vec<(u32, i32, i32)>>) -> (replaced: bool)
        ensures
            replaced <==> parsed is Some,
            match parsed {
                Some(entries) => final(self)@ == entries@,
                None => final(self)@ == old(self)@,
            },
    {
        match parsed {
            Some(entries) => {
                self.entries = entries;
                true
            },
            None => false,
        }
    }

    /// The entries, in the order they were pushed.
    pub fn entries(&self) -> (entries: &[(u32, i32, i32)])
        ensures
            entries@ == self@,
    {
        self.entries.as_slice()
    }
}

/// The position of the first entry for `id`, if any.
pub open spec fn first_position(entries: Seq<(u32, i32, i32)>, id: u32) -> Option<(i32, i32)>
    decreases entries.len(),
{
    if entries.len() == 0 {
        None
    } else if entries[0].0 == id {
        Some((entries[0].1, entries[0].2))
    } else {
        first_position(entries.drop_first(), id)
    }
}

/// Replaces `layout` with the one encoded in `layout_json`
/// (`[[id, x, y], ...]`). A text that does not parse leaves the previous
/// layout in place and is answered with the parser's error text, so that a
/// caller can report the push it had to ignore.
pub fn set_display_layout(layout: &mut DisplayLayout, layout_json: String) -> (r: Result<(), String>)
    ensures
        match json_display_layout(layout_json@) {
            Ok(entries) => r is Ok && final(layout)@ == entries,
            Err(msg) => r matches Err(e) && e@ == msg && final(layout)@ == old(layout)@,
        },
{
    match parse_layout_json(layout_json.as_str()) {
        Ok(entries) => {
            layout.replace_with(Some(entries));
            Ok(())
        },
        Err(msg) => Err(msg),
    }
}

/// The position of display `display_id`: the first entry that names it.
pub fn position_of(layout: &DisplayLayout, display_id: u32) -> (r: Option<(i32, i32)>)
    ensures
        r == first_position(layout@, display_id),
{
    let entries = layout.entries.as_slice();
    let len = entries.len();
    let mut i: usize = 0;
    assert(entries@.skip(0) =~= entries@);
    while i < len
        invariant
            len == entries@.len(),
            entries@ == layout@,
            i <= len,
            first_position(entries@, display_id) == first_position(entries@.skip(i as int), display_id),
        decreases len - i,
    {
        let (id, x, y) = entries[i];
        assert(entries@.skip(i as int)[0] == entries@[i as int]);
        if id == display_id {
            return Some((x, y));
        }
        assert(entries@.skip(i as int).drop_first() =~= entries@.skip(i + 1));
        i = i + 1;
    }
    None
}

/// The first listed position of a display is the one that counts.
pub proof fn law_first_listed_position_wins(entries: Seq<(u32, i32, i32)>, id: u32, j: int)
    requires
        0 <= j < entries.len(),
        entries[j].0 == id,
        forall|k: int| 0 <= k < j ==> entries[k].0 != id,
    ensures
        first_position(entries, id) == Some((entries[j].1, entries[j].2)),
    decreases j,
{
    if j > 0 {
        law_first_listed_position_wins(entries.drop_first(), id, j - 1);
    }
}

/// A display that the layout does not list has no position.
pub proof fn law_unlisted_display_has_no_position(entries: Seq<(u32, i32, i32)>, id: u32)
    requires
        forall|k: int| 0 <= k < entries.len() ==> entries[k].0 != id,
    ensures
        first_position(entries, id) is None,
    decreases entries.len(),
{
    if entries.len() > 0 {
        law_unlisted_display_has_no_position(entries.drop_first(), id);
    }
}

/// The bytes of a C string held in a fixed-size array: everything before
/// the first NUL (the whole array when it holds none).
pub open spec fn nul_terminated(raw: Seq<u8>) -> Seq<u8>
    decreases raw.len(),
{
    if raw.len() == 0 || raw[0] == 0 {
        Seq::empty()
    } else {
        seq![raw[0]] + nul_terminated(raw.drop_first())
    }
}

/// `k` is where the C string in `raw` ends: no NUL comes before it, and it
/// is a NUL or the end of the array.
pub open spec fn nul_or_end_at(raw: Seq<u8>, k: int) -> bool {
    &&& 0 <= k <= raw.len()
    &&& k < raw.len() ==> raw[k] == 0
    &&& forall|i: int| 0 <= i < k ==> raw[i] != 0
}

/// A C string read from a fixed-size array is every byte before its end:
/// the first NUL, or the end of the array when it holds none.
pub proof fn law_c_name_is_every_byte_before_first_nul(raw: Seq<u8>, k: int)
    requires
        nul_or_end_at(raw, k),
    ensures
        nul_terminated(raw) == raw.take(k),
    decreases raw.len(),
{
    if raw.len() == 0 || raw[0] == 0 {
        assert(k == 0);
        assert(raw.take(k) =~= Seq::<u8>::empty());
    } else {
        let rest = raw.drop_first();
        assert(nul_or_end_at(rest, k - 1)) by {
            assert forall|i: int| 0 <= i < k - 1 implies rest[i] != 0 by {
                assert(rest[i] == raw[i + 1]);
            }
            if k - 1 < rest.len() {
                assert(rest[k - 1] == raw[k]);
            }
        }
        law_c_name_is_every_byte_before_first_nul(rest, k - 1);
        assert(raw.take(k) =~= seq![raw[0]] + rest.take(k - 1));
    }
}

proof fn lemma_nul_terminated_has_no_nul(raw: Seq<u8>)
    ensures
        !nul_terminated(raw).contains(0u8),
    decreases raw.len(),
{
    if raw.len() > 0 && raw[0] != 0 {
        lemma_nul_terminated_has_no_nul(raw.drop_first());
        let rest = nul_terminated(raw.drop_first());
        assert forall|i: int| 0 <= i < nul_terminated(raw).len() implies nul_terminated(raw)[i] != 0u8 by {
            if i > 0 {
                assert(nul_terminated(raw)[i] == rest[i - 1]);
            }
        }
    }
}

/// Reads a NUL-terminated C name as a string, replacing invalid UTF-8.
pub fn c_name_to_string(raw: &[u8]) -> (s: String)
    ensures
        s@ == utf8_lossy(nul_terminated(raw@)),
        is_ascii_bytes(nul_terminated(raw@)) ==> s@ == ascii_chars(nul_terminated(raw@)),
        !s@.contains('\0'),
        forall|k: int|
            #![trigger raw@.take(k)]
            nul_or_end_at(raw@, k) && is_ascii_bytes(raw@.take(k)) ==> s@ == ascii_chars(raw@.take(k)),
{
    let len = raw.len();
    let mut bytes: Vec<u8> = Vec::new();
    let mut i: usize = 0;
    assert(raw@.skip(0) =~= raw@);
    while i < len
        invariant_except_break
            len == raw@.len(),
            i <= len,
            nul_terminated(raw@) == bytes@ + nul_terminated(raw@.skip(i as int)),
        ensures
            nul_terminated(raw@) == bytes@,
        decreases len - i,
    {
        let c = raw[i];
        if c == 0 {
            assert(raw@.skip(i as int)[0] == 0);
            assert(bytes@ + Seq::<u8>::empty() =~= bytes@);
            break;
        }
        assert(raw@.skip(i as int).drop_first() =~= raw@.skip(i + 1));
        assert(bytes@.push(c) + nul_terminated(raw@.skip(i + 1)) =~= bytes@ + (seq![c]
            + nul_terminated(raw@.skip(i + 1))));
        bytes.push(c);
        i = i + 1;
    }
    proof {
        lemma_nul_terminated_has_no_nul(raw@);
        assert forall|k: int|
            #![trigger raw@.take(k)]
            nul_or_end_at(raw@, k) && is_ascii_bytes(raw@.take(k)) implies nul_terminated(raw@) == raw@.take(k) by {
            law_c_name_is_every_byte_before_first_nul(raw@, k);
        }
    }
    string_from_utf8_lossy(bytes.as_slice())
}

/// What the display manager reports of one display, as plain values: the
/// raw bytes of its fixed-size C name, its size in pixels (negative when the
/// manager could not tell) and refresh rate.
#[derive(Clone, Debug)]
pub struct RawDisplayInfo {
    pub id: u32,
    pub name: Vec<u8>,
    pub width: i32,
    pub height: i32,
    pub refresh_rate: u32,
}

/// Where a display sits and how large it is, as handed to the windowing
/// backend (the display's scale factor travels beside it).
#[derive(Clone, Debug)]
pub struct DisplayGeometry {
    /// OHOS display id.
    pub id: u32,
    pub name: String,
    /// Top-left offset in the global display coordinate space; (0, 0) when
    /// ArkTS has not pushed a position for this display.
    pub x: i32,
    pub y: i32,
    /// Physical size in pixels.
    pub width: u32,
    pub height: u32,
    pub refresh_rate: u32,
}

/// A reported extent, negative values read as 0.
pub open spec fn clamp_extent(v: i32) -> u32 {
    if v < 0 {
        0
    } else {
        v as u32
    }
}

/// The pushed position of display `id`, or the origin when none was pushed.
pub open spec fn position_or_origin(entries: Seq<(u32, i32, i32)>, id: u32) -> (i32, i32) {
    match first_position(entries, id) {
        Some(p) => p,
        None => (0, 0),
    }
}

/// `g` describes the reported display `raw` placed by `entries`.
pub open spec fn placed_as(g: DisplayGeometry, raw: RawDisplayInfo, entries: Seq<(u32, i32, i32)>) -> bool {
    &&& g.id == raw.id
    &&& g.name@ == utf8_lossy(nul_terminated(raw.name@))
    &&& is_ascii_bytes(nul_terminated(raw.name@)) ==> g.name@ == ascii_chars(nul_terminated(raw.name@))
    &&& !g.name@.contains('\0')
    &&& (g.x, g.y) == position_or_origin(entries, raw.id)
    &&& g.width == clamp_extent(raw.width)
    &&& g.height == clamp_extent(raw.height)
    &&& g.refresh_rate == raw.refresh_rate
}

/// A described display carries what the display manager reported of it:
/// its id and refresh rate unchanged, its size with a negative extent read
/// as 0 and any other kept as it is.
pub proof fn law_placed_display_keeps_reported_values(
    g: DisplayGeometry,
    raw: RawDisplayInfo,
    entries: Seq<(u32, i32, i32)>,
)
    requires
        placed_as(g, raw, entries),
    ensures
        g.id == raw.id,
        g.refresh_rate == raw.refresh_rate,
        raw.width >= 0 ==> g.width == raw.width,
        raw.width < 0 ==> g.width == 0,
        raw.height >= 0 ==> g.height == raw.height,
        raw.height < 0 ==> g.height == 0,
{
}

/// A described display sits where the first layout entry for its id puts
/// it, whatever the signs of the offsets (a display left of or above the
/// primary has negative ones).
pub proof fn law_placed_display_sits_at_listed_position(
    g: DisplayGeometry,
    raw: RawDisplayInfo,
    entries: Seq<(u32, i32, i32)>,
    j: int,
)
    requires
        placed_as(g, raw, entries),
        0 <= j < entries.len(),
        entries[j].0 == raw.id,
        forall|k: int| 0 <= k < j ==> entries[k].0 != raw.id,
    ensures
        g.x == entries[j].1,
        g.y == entries[j].2,
{
    law_first_listed_position_wins(entries, raw.id, j);
}

/// A described display that the layout does not list sits at the origin.
pub proof fn law_unlisted_display_sits_at_origin(
    g: DisplayGeometry,
    raw: RawDisplayInfo,
    entries: Seq<(u32, i32, i32)>,
)
    requires
        placed_as(g, raw, entries),
        forall|k: int| 0 <= k < entries.len() ==> entries[k].0 != raw.id,
    ensures
        g.x == 0,
        g.y == 0,
{
    law_unlisted_display_has_no_position(entries, raw.id);
}

/// The name of a described display whose C name is ASCII is every byte
/// before the name's first NUL (or the whole array), read as characters.
pub proof fn law_placed_display_name_is_c_name(
    g: DisplayGeometry,
    raw: RawDisplayInfo,
    entries: Seq<(u32, i32, i32)>,
    k: int,
)
    requires
        placed_as(g, raw, entries),
        nul_or_end_at(raw.name@, k),
        is_ascii_bytes(raw.name@.take(k)),
    ensures
        g.name@ == ascii_chars(raw.name@.take(k)),
{
    law_c_name_is_every_byte_before_first_nul(raw.name@, k);
}

fn clamp_to_u32(v: i32) -> (r: u32)
    ensures
        r == clamp_extent(v),
{
    if v < 0 {
        0
    } else {
        v as u32
    }
}

/// Describes one reported display, with its position taken from `layout`.
pub fn place_display(raw: &RawDisplayInfo, layout: &DisplayLayout) -> (g: DisplayGeometry)
    ensures
        placed_as(g, *raw, layout@),
{
    let (x, y) = match position_of(layout, raw.id) {
        Some(p) => p,
        None => (0, 0),
    };
    DisplayGeometry {
        id: raw.id,
        name: c_name_to_string(raw.name.as_slice()),
        x,
        y,
        width: clamp_to_u32(raw.width),
        height: clamp_to_u32(raw.height),
        refresh_rate: raw.refresh_rate,
    }
}

/// Describes every reported display in order; `None` when the manager
/// reported none, in which case the default display stands in.
pub fn place_displays(raws: &[RawDisplayInfo], layout: &DisplayLayout) -> (r: Option<Vec<DisplayGeometry>>)
    ensures
        r is None <==> raws@.len() == 0,
        r matches Some(v) ==> {
            &&& v@.len() == raws@.len()
            &&& forall|i: int| 0 <= i < raws@.len() ==> placed_as(#[trigger] v@[i], raws@[i], layout@)
        },
{
    if raws.len() == 0 {
        return None;
    }
    let mut out: Vec<DisplayGeometry> = Vec::new();
    let mut i: usize = 0;
    while i < raws.len()
        invariant
            i <= raws@.len(),
            out@.len() == i,
            forall|k: int| 0 <= k < i ==> placed_as(#[trigger] out@[k], raws@[k], layout@),
        decreases raws@.len() - i,
    {
        out.push(place_display(&raws[i], layout));
        i = i + 1;
    }
    Some(out)
}

/// The name given to the default display when the display manager cannot
/// enumerate displays.
pub open spec fn default_display_name() -> Seq<char> {
    "OpenHarmony Device"@
}

/// Describes the default display from the default-display queries (its
/// 64-bit id, size and refresh rate), with its position taken from `layout`.
pub fn fallback_display(
    display_id: u64,
    width: i32,
    height: i32,
    refresh_rate: u32,
    layout: &DisplayLayout,
) -> (g: DisplayGeometry)
    ensures
        g.id == display_id as u32,
        g.name@ == default_display_name(),
        (g.x, g.y) == position_or_origin(layout@, display_id as u32),
        g.width == clamp_extent(width),
        g.height == clamp_extent(height),
        g.refresh_rate == refresh_rate,
{
    let id = display_id as u32;
    let (x, y) = match position_of(layout, id) {
        Some(p) => p,
        None => (0, 0),
    };
    let mut name = String::new();
    name.append("OpenHarmony Device");
    DisplayGeometry {
        id,
        name,
        x,
        y,
        width: clamp_to_u32(width),
        height: clamp_to_u32(height),
        refresh_rate,
    }
}

} // verus!
