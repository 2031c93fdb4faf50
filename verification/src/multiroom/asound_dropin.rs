//! ALSA drop-in for source mode.
//!
//! While source mode is engaged the drop-in routes `pcm.evo` through the loopback
//! device and, where the local card is known, gives the local DAC a name of its
//! own. While source mode is off the file holds comments only, so that the base
//! configuration stays in force.

use crate::json::opt_view;
use crate::text::{
    chars_of, decimal, decimal_of, find_char, has_prefix, index_of, lines, lines_of, piece_views,
    starts_with, text_of, trim_start, trim_start_of,
};
use crate::text::{is_blank, law_leading_white_is_dropped, law_the_first_is_found};
use vstd::prelude::*;
use vstd::slice::slice_subrange;

verus! {

/// Path of the drop-in.
pub const DROP_IN_PATH: &'static str = "/etc/asound.d/zz-evo-multiroom-source.conf";

/// Path of the base configuration, which names the local card.
pub const BASE_ASOUND_CONF: &'static str = "/etc/asound.conf";

/// Body of the drop-in while source mode is off: comments only.
pub const DISENGAGED_PLACEHOLDER: &'static str = "# Multi-room source-mode ALSA drop-in for evo-device-audio.\n\
# Plugin-managed: org.evoframework.multiroom.evo-native overwrites\n\
# this file atomically when source role engages on a live group,\n\
# and truncates it back to this placeholder when the role\n\
# transitions out. The placeholder has no effect on pcm.evo; the\n\
# base direct-to-DAC definition stays in force.\n";

/// First lines of the engaged drop-in.
pub const HEADER: &'static str = "# Runtime ALSA drop-in written by \
org.evoframework.multiroom.evo-native while a live multi-room \
source-mode group is engaged on this device. Removed \
automatically when the role transitions out of engaged source. \
DO NOT EDIT BY HAND --- this file is regenerated on every \
engage transition.\n\n";

/// `pcm.evo` as a tee into the multi-room loopback and the terminus tap.
pub const PCM_EVO_LOOPBACK: &'static str = r#"pcm.evo {
    type plug
    slave.pcm "evo_source_mode_tee"
    hint {
        show on
        description "evo: multi-room source producer + terminus tap"
    }
}

pcm.evo_source_mode_tee {
    type multi
    slaves.multiroom.pcm "evo_source_mode_loopback_playback"
    slaves.multiroom.channels 2
    slaves.terminus.pcm "evo_terminus_tap"
    slaves.terminus.channels 2
    bindings.0.slave multiroom
    bindings.0.channel 0
    bindings.1.slave multiroom
    bindings.1.channel 1
    bindings.2.slave terminus
    bindings.2.channel 0
    bindings.3.slave terminus
    bindings.3.channel 1
}

pcm.evo_source_mode_loopback_playback {
    type hw
    card "Loopback"
    device 0
    subdevice 0
}

# pcm.evo_terminus_tap is also defined in /etc/asound.conf for
# the non-source-mode case (the multi-slave tee there writes to
# the DAC primary + terminus tap). Redefining the same alias
# here is a no-op since both definitions target the same subdev;
# the duplication is explicit so this drop-in stands alone
# (operators reading just this file see the full source-mode
# wiring without cross-referencing the base asound.conf).
pcm.evo_terminus_tap {
    type hw
    card "Loopback"
    device 0
    subdevice 7
}
"#;

/// Stands in for `pcm.evo_local` when the card name is unknown.
pub const PCM_EVO_LOCAL_PLACEHOLDER: &'static str = "\n# pcm.evo_local omitted: local DAC card name could not be parsed \
from /etc/asound.conf at engage time. Source-host fan-out to \
remote receivers is unaffected; only the source-host's own \
local rendering is silent until the next engage attempt.\n";

/// Capture half of the loopback.
pub const PCM_LOOPBACK_CAPTURE: &'static str = r#"
pcm.evo_loopback_capture {
    type hw
    card "Loopback"
    device 1
    subdevice 0
    hint {
        show on
        description "evo: source-host loopback capture target"
    }
}
"#;

/// Start of the `pcm.evo_local` definition, up to the card name.
pub const PCM_EVO_LOCAL_HEAD: &'static str = "\npcm.evo_local {\n    type plug\n    slave.pcm \"hw:CARD=";

/// Rest of the `pcm.evo_local` definition, after the card name.
pub const PCM_EVO_LOCAL_TAIL: &'static str = ",DEV=0\"\n    hint {\n        show on\n        description \"evo: source-host local DAC renderer target\"\n    }\n}\n";

/// Renders the engaged drop-in for the given card.
pub fn render(card: Option<&str>) -> (r: String)
    ensures
        r@ == HEADER@ + PCM_EVO_LOOPBACK@ + (match card {
            Some(name) => PCM_EVO_LOCAL_HEAD@ + name@ + PCM_EVO_LOCAL_TAIL@,
            None => PCM_EVO_LOCAL_PLACEHOLDER@,
        }) + PCM_LOOPBACK_CAPTURE@,
{
    let mut s = HEADER.to_owned();
    s.append(PCM_EVO_LOOPBACK);
    match card {
        Some(name) => {
            let local = render_pcm_evo_local(name);
            s.append(local.as_str());
        },
        None => {
            s.append(PCM_EVO_LOCAL_PLACEHOLDER);
        },
    }
    s.append(PCM_LOOPBACK_CAPTURE);
    s
}

/// Renders the definition of the local DAC.
pub fn render_pcm_evo_local(card: &str) -> (r: String)
    ensures
        r@ == PCM_EVO_LOCAL_HEAD@ + card@ + PCM_EVO_LOCAL_TAIL@,
{
    let mut s = PCM_EVO_LOCAL_HEAD.to_owned();
    s.append(card);
    s.append(PCM_EVO_LOCAL_TAIL);
    s
}

/// The name in a `card "<NAME>"` line: white space, `card`, white space, and a
/// name between double quotes. Whatever follows the closing quote is ignored.
pub open spec fn card_of_line(line: Seq<char>) -> Option<Seq<char>> {
    let t = trim_start_of(line);
    if has_prefix(t, "card"@) {
        let rest = trim_start_of(t.skip("card"@.len() as int));
        if rest.len() > 0 && rest[0] == '"' && index_of(rest.skip(1), '"') < rest.len() - 1 {
            Some(rest.skip(1).take(index_of(rest.skip(1), '"')))
        } else {
            None
        }
    } else {
        None
    }
}

/// The first card name among the lines.
pub open spec fn first_card(lines: Seq<Seq<char>>) -> Option<Seq<char>>
    decreases lines.len(),
{
    if lines.len() == 0 {
        None
    } else {
        match card_of_line(lines[0]) {
            Some(name) => Some(name),
            None => first_card(lines.drop_first()),
        }
    }
}

fn card_in(line: &[char]) -> (r: Option<String>)
    ensures
        opt_view(r) == card_of_line(line@),
{
    proof {
        reveal_strlit("card");
    }
    let t = trim_start(line);
    if !starts_with(t, "card") {
        return None;
    }
    let rest = trim_start(slice_subrange(t, 4, t.len()));
    assert(t@.subrange(4, t@.len() as int) =~= t@.skip(4));
    if rest.len() == 0 || rest[0] != '"' {
        return None;
    }
    let name = slice_subrange(rest, 1, rest.len());
    assert(name@ =~= rest@.skip(1));
    let end: usize = find_char(name, '"');
    if end == name.len() {
        return None;
    }
    let found = slice_subrange(name, 0, end);
    assert(found@ =~= name@.take(end as int));
    Some(text_of(found))
}

/// Finds the local card in the contents of the base configuration.
pub fn detect_audio_card(contents: &str) -> (r: Option<String>)
    ensures
        opt_view(r) == first_card(lines_of(contents@)),
{
    let chars = chars_of(contents);
    let all = lines(chars.as_slice());
    let ghost views = piece_views(all@);
    let n: usize = all.len();
    assert(views.skip(0) =~= views);
    for i in 0..n
        invariant
            n == all@.len(),
            views == piece_views(all@),
            views == lines_of(contents@),
            first_card(views) == first_card(views.skip(i as int)),
    {
        assert(views.skip(i as int)[0] == all@[i as int]@);
        assert(views.skip(i as int).drop_first() =~= views.skip(i + 1));
        let found = card_in(all[i].as_slice());
        if found.is_some() {
            return found;
        }
    }
    None
}

/// Name of the temporary file that a write goes to before it is renamed into
/// place: hidden, next to the target, and distinct per process.
pub fn temp_file_name(file_name: Option<&str>, process_id: u32) -> (r: String)
    ensures
        r@ == "."@ + (match file_name {
            Some(n) => n@,
            None => "evo-multiroom"@,
        }) + ".tmp."@ + decimal_of(process_id as nat),
{
    let mut s = ".".to_owned();
    match file_name {
        Some(n) => {
            s.append(n);
        },
        None => {
            s.append("evo-multiroom");
        },
    }
    s.append(".tmp.");
    s.append(decimal(process_id as u64).as_str());
    s
}

/// The card is the one named between quotes on the first `card` line, whatever
/// follows the closing quote.
pub proof fn law_the_first_card_line_names_the_card(
    before: Seq<Seq<char>>,
    pad: Seq<char>,
    gap: Seq<char>,
    name: Seq<char>,
    tail: Seq<char>,
    after: Seq<Seq<char>>,
)
    requires
        forall|i: int|
            0 <= i < before.len() ==> !has_prefix(trim_start_of(#[trigger] before[i]), "card"@),
        is_blank(pad),
        is_blank(gap),
        !name.contains('"'),
    ensures
        first_card(
            before + seq![pad + "card"@ + gap + seq!['"'] + name + seq!['"'] + tail] + after,
        ) == Some(name),
        first_card(before) is None,
    decreases before.len(),
{
    let line = pad + "card"@ + gap + seq!['"'] + name + seq!['"'] + tail;
    let all = before + seq![line] + after;
    if before.len() == 0 {
        reveal_strlit("card");
        assert("card"@.len() == 4);
        let quoted = seq!['"'] + (name + seq!['"'] + tail);
        let t = "card"@ + (gap + quoted);
        assert(all[0] == line);
        assert(line =~= pad + t);
        law_leading_white_is_dropped(pad, t);
        assert(t.subrange(0, 4) =~= "card"@);
        assert(t.skip(4) =~= gap + quoted);
        law_leading_white_is_dropped(gap, quoted);
        assert(quoted.skip(1) =~= name + seq!['"'] + tail);
        law_the_first_is_found(name, '"', tail);
        assert(quoted.skip(1).take(name.len() as int) =~= name);
    } else {
        let rest = before.drop_first();
        assert(all[0] == before[0]);
        assert(!has_prefix(trim_start_of(before[0]), "card"@));
        assert forall|i: int| 0 <= i < rest.len() implies !has_prefix(
            trim_start_of(#[trigger] rest[i]),
            "card"@,
        ) by {
            assert(rest[i] == before[i + 1]);
        }
        law_the_first_card_line_names_the_card(rest, pad, gap, name, tail, after);
        assert(all.drop_first() =~= rest + seq![line] + after);
    }
}

} // verus!
