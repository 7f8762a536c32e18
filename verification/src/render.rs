//! The render consumer.
//!
//! Once per presented frame the overlay runtime drains the command queue:
//! each `SetOffset` updates the consumer-local one-shot offset, and each
//! `Text` consumes that offset: the text is resolved through the transform
//! engine, shifted by the pending offset (which is then reset to zero,
//! whether or not the result is drawable), and emitted as a draw item
//! carrying a stable identifying hash, the host text color and the font
//! scale.  A command whose transform is invalid is skipped; the drain
//! itself never fails.

use crate::fix::{clamp_u32, fits_raw, lemma_tdiv_magnitude, oadd, oval, tdiv, Fix, FIX_SCALE};
use crate::queue::{CommandQueue, DrawCommand};
use crate::transform::{transform, transform_spec, CameraState, WindowState};
use vstd::prelude::*;

verus! {

/// A text color as the host supplies it, one byte per channel.
#[derive(Clone, Copy, PartialEq, Eq, Structural, Debug)]
pub struct Color {
    pub r: u8,
    pub g: u8,
    pub b: u8,
    pub a: u8,
}

/// Host-supplied style state read once per frame: the text color and the
/// pixel size the host wants its text drawn at.
#[derive(Clone, Copy, PartialEq, Eq, Structural, Debug)]
pub struct TextStyle {
    pub color: Color,
    pub font_size: Fix,
}

/// The pixel size the overlay font was loaded at.
pub const BASE_FONT_SIZE: i64 = 24;

/// One resolved draw primitive: where to draw which text, how scaled and
/// colored, under a stable per-frame identifier.
#[derive(Debug, Clone, PartialEq)]
pub struct DrawItem {
    pub id: u64,
    pub content: String,
    pub x: Fix,
    pub y: Fix,
    pub color: Color,
    pub font_scale: Fix,
}

/// Offset basis of the 64-bit FNV-1a hash.
pub const FNV_OFFSET: u64 = 0xcbf29ce484222325;

/// Prime of the 64-bit FNV-1a hash.
pub const FNV_PRIME: u64 = 0x100000001b3;

/// One FNV-1a step: fold one value into the running hash.
pub open spec fn id_step(h: u64, v: u64) -> u64 {
    (h ^ v).wrapping_mul(FNV_PRIME)
}

/// Folds a character sequence into the running hash.
pub open spec fn chars_hashed(h: u64, s: Seq<char>) -> u64
    decreases s.len(),
{
    if s.len() == 0 {
        h
    } else {
        chars_hashed(id_step(h, s[0] as u64), s.drop_first())
    }
}

/// A coordinate as hashed: the whole part, truncated toward zero and
/// clamped to the `u32` range.
pub open spec fn coord_hashed(c: Fix) -> u64 {
    clamp_u32(tdiv(c.raw as int, FIX_SCALE as int)) as u64
}

/// The stable identifier of a drawn item: an FNV-1a hash of the source
/// coordinates, the final offset coordinates and the text.  Items that
/// collide are visually indistinguishable: same text, same truncated
/// positions.
pub open spec fn item_id(x: Fix, y: Fix, fx: Fix, fy: Fix, content: Seq<char>) -> u64 {
    chars_hashed(
        id_step(
            id_step(id_step(id_step(FNV_OFFSET, coord_hashed(x)), coord_hashed(y)), coord_hashed(fx)),
            coord_hashed(fy),
        ),
        content,
    )
}

/// Computes the stable identifier of a drawn item.
pub fn compute_item_id(x: Fix, y: Fix, fx: Fix, fy: Fix, content: &String) -> (r: u64)
    ensures
        r == item_id(x, y, fx, fy, content@),
{
    let mut h: u64 = FNV_OFFSET;
    h = (h ^ (x.trunc_clamp_u32() as u64)).wrapping_mul(FNV_PRIME);
    h = (h ^ (y.trunc_clamp_u32() as u64)).wrapping_mul(FNV_PRIME);
    h = (h ^ (fx.trunc_clamp_u32() as u64)).wrapping_mul(FNV_PRIME);
    h = (h ^ (fy.trunc_clamp_u32() as u64)).wrapping_mul(FNV_PRIME);
    let s = content.as_str();
    let n = s.unicode_len();
    let mut i: usize = 0;
    proof {
        assert(content@.skip(0) =~= content@);
    }
    while i < n
        invariant
            0 <= i <= n,
            n == content@.len(),
            s@ == content@,
            chars_hashed(h, content@.skip(i as int)) == item_id(x, y, fx, fy, content@),
        decreases n - i,
    {
        let c = s.get_char(i);
        proof {
            assert(content@.skip(i as int).drop_first() =~= content@.skip(i as int + 1));
        }
        h = (h ^ (c as u64)).wrapping_mul(FNV_PRIME);
        i = i + 1;
    }
    proof {
        assert(content@.skip(n as int) =~= Seq::<char>::empty());
    }
    h
}

/// The font scale a style asks for: the wanted pixel size over the base
/// size the font was loaded at, truncated toward zero in fixed point.
pub open spec fn font_scale_spec(font_size: Fix) -> Fix {
    Fix { raw: tdiv(font_size.raw as int, BASE_FONT_SIZE as int) as i64 }
}

/// Computes the font scale of a style.
pub fn font_scale(font_size: Fix) -> (r: Fix)
    ensures
        r == font_scale_spec(font_size),
{
    proof {
        lemma_tdiv_magnitude(font_size.raw as int, BASE_FONT_SIZE as int);
    }
    let scaled = font_size.scale_ratio(1, 24);
    match scaled {
        Some(v) => v,
        None => Fix { raw: 0 },
    }
}

/// The fixed-point zero pair: no pending offset.
pub open spec fn no_offset() -> (Fix, Fix) {
    (Fix { raw: 0 }, Fix { raw: 0 })
}

/// What draining a command sequence renders, given the pending one-shot
/// offset.  A `SetOffset` replaces the pending offset; every `Text`
/// consumes it: a `Text` whose transform resolves is drawn shifted by the
/// pending offset, and one whose transform is invalid or whose offset
/// addition overflows is skipped; in every case the offset is reset to
/// zero afterwards, so it affects at most the one `Text` that follows it.
pub open spec fn process_commands(
    cmds: Seq<DrawCommand>,
    offset: (Fix, Fix),
    cam: Option<CameraState>,
    win: WindowState,
    style: TextStyle,
) -> Seq<DrawItem>
    decreases cmds.len(),
{
    if cmds.len() == 0 {
        Seq::empty()
    } else {
        match cmds[0] {
            DrawCommand::SetOffset { dx, dy } => process_commands(
                cmds.drop_first(),
                (dx, dy),
                cam,
                win,
                style,
            ),
            DrawCommand::Text { content, x, y, z, mode } => match transform_spec(
                x,
                y,
                z,
                mode,
                cam,
                win,
            ) {
                None => process_commands(cmds.drop_first(), no_offset(), cam, win, style),
                Some(pos) => match (
                    oadd(oval(pos.0), oval(offset.0)),
                    oadd(oval(pos.1), oval(offset.1)),
                ) {
                    (Some(ax), Some(ay)) => {
                        let fx = Fix { raw: ax as i64 };
                        let fy = Fix { raw: ay as i64 };
                        seq![
                            DrawItem {
                                id: item_id(x, y, fx, fy, content@),
                                content: content,
                                x: fx,
                                y: fy,
                                color: style.color,
                                font_scale: font_scale_spec(style.font_size),
                            },
                        ] + process_commands(cmds.drop_first(), no_offset(), cam, win, style)
                    },
                    _ => process_commands(cmds.drop_first(), no_offset(), cam, win, style),
                },
            },
        }
    }
}

/// Drains the queue completely and resolves every command: the per-frame
/// work of the render consumer.  The offset state starts at zero and is
/// frame-local; an offset left pending when the queue runs dry is
/// discarded.
pub fn drain_frame(
    q: &mut CommandQueue,
    cam: Option<CameraState>,
    win: &WindowState,
    style: &TextStyle,
) -> (items: Vec<DrawItem>)
    ensures
        final(q).contents().len() == 0,
        final(q).cap() == old(q).cap(),
        items@ == process_commands(old(q).contents(), no_offset(), cam, *win, *style),
{
    let ghost init = q.contents();
    let ghost cap0 = q.cap();
    let mut items: Vec<DrawItem> = Vec::new();
    let mut off_x = Fix::zero();
    let mut off_y = Fix::zero();
    proof {
        assert(items@ + process_commands(q.contents(), (off_x, off_y), cam, *win, *style)
            =~= process_commands(init, no_offset(), cam, *win, *style));
    }
    loop
        invariant
            q.cap() == cap0,
            process_commands(init, no_offset(), cam, *win, *style) == items@ + process_commands(
                q.contents(),
                (off_x, off_y),
                cam,
                *win,
                *style,
            ),
        ensures
            q.contents().len() == 0,
            q.cap() == cap0,
            items@ == process_commands(init, no_offset(), cam, *win, *style),
        decreases q.contents().len(),
    {
        let ghost prev = q.contents();
        let popped = q.try_pop();
        match popped {
            None => {
                proof {
                    assert(process_commands(prev, (off_x, off_y), cam, *win, *style)
                        =~= Seq::<DrawItem>::empty());
                    assert(items@ + Seq::<DrawItem>::empty() =~= items@);
                }
                break ;
            },
            Some(cmd) => {
                proof {
                    assert(prev[0] == cmd);
                    assert(prev.drop_first() == q.contents());
                }
                match cmd {
                    DrawCommand::SetOffset { dx, dy } => {
                        off_x = dx;
                        off_y = dy;
                    },
                    DrawCommand::Text { content, x, y, z, mode } => {
                        let pos = transform(x, y, z, mode, cam, win);
                        match pos {
                            None => {
                                off_x = Fix::zero();
                                off_y = Fix::zero();
                            },
                            Some((px, py)) => {
                                let fx = px.plus(off_x);
                                let fy = py.plus(off_y);
                                off_x = Fix::zero();
                                off_y = Fix::zero();
                                match (fx, fy) {
                                    (Some(ax), Some(ay)) => {
                                        let scale = font_scale(style.font_size);
                                        let id = compute_item_id(x, y, ax, ay, &content);
                                        let ghost items_before = items@;
                                        let item = DrawItem {
                                            id,
                                            content,
                                            x: ax,
                                            y: ay,
                                            color: style.color,
                                            font_scale: scale,
                                        };
                                        proof {
                                            assert(items_before.push(item) =~= items_before + seq![
                                                item,
                                            ]);
                                            assert((items_before + seq![item]) + process_commands(
                                                q.contents(),
                                                no_offset(),
                                                cam,
                                                *win,
                                                *style,
                                            ) =~= items_before + (seq![item] + process_commands(
                                                q.contents(),
                                                no_offset(),
                                                cam,
                                                *win,
                                                *style,
                                            )));
                                        }
                                        items.push(item);
                                    },
                                    _ => {},
                                }
                            },
                        }
                    },
                }
            },
        }
    }
    items
}

/// A one-shot offset pairs with exactly the next drawn text: draining a
/// `SetOffset` followed by two texts draws the first text at its transform
/// shifted by the offset and the second at its plain transform.
pub proof fn lemma_offset_applies_once(
    d: (Fix, Fix),
    content1: String,
    x1: Fix,
    y1: Fix,
    z1: Fix,
    mode1: crate::transform::CoordMode,
    content2: String,
    x2: Fix,
    y2: Fix,
    z2: Fix,
    mode2: crate::transform::CoordMode,
    cam: Option<CameraState>,
    win: WindowState,
    style: TextStyle,
)
    requires
        transform_spec(x1, y1, z1, mode1, cam, win) is Some,
        transform_spec(x2, y2, z2, mode2, cam, win) is Some,
        fits_raw((transform_spec(x1, y1, z1, mode1, cam, win)->0).0.raw + d.0.raw),
        fits_raw((transform_spec(x1, y1, z1, mode1, cam, win)->0).1.raw + d.1.raw),
    ensures
        ({
            let cmds = seq![
                DrawCommand::SetOffset { dx: d.0, dy: d.1 },
                DrawCommand::Text { content: content1, x: x1, y: y1, z: z1, mode: mode1 },
                DrawCommand::Text { content: content2, x: x2, y: y2, z: z2, mode: mode2 },
            ];
            let out = process_commands(cmds, no_offset(), cam, win, style);
            let p1 = transform_spec(x1, y1, z1, mode1, cam, win)->0;
            let p2 = transform_spec(x2, y2, z2, mode2, cam, win)->0;
            &&& out.len() == 2
            &&& out[0].content == content1
            &&& out[0].x.raw == p1.0.raw + d.0.raw
            &&& out[0].y.raw == p1.1.raw + d.1.raw
            &&& out[1].content == content2
            &&& out[1].x.raw == p2.0.raw
            &&& out[1].y.raw == p2.1.raw
        }),
{
    let c0 = DrawCommand::SetOffset { dx: d.0, dy: d.1 };
    let c1 = DrawCommand::Text { content: content1, x: x1, y: y1, z: z1, mode: mode1 };
    let c2 = DrawCommand::Text { content: content2, x: x2, y: y2, z: z2, mode: mode2 };
    let cmds = seq![c0, c1, c2];
    assert(cmds.drop_first() =~= seq![c1, c2]);
    assert(seq![c1, c2].drop_first() =~= seq![c2]);
    assert(seq![c2].drop_first() =~= Seq::<DrawCommand>::empty());
    let p1 = transform_spec(x1, y1, z1, mode1, cam, win)->0;
    let p2 = transform_spec(x2, y2, z2, mode2, cam, win)->0;
    let out1 = process_commands(seq![c1, c2], (d.0, d.1), cam, win, style);
    let out2 = process_commands(seq![c2], no_offset(), cam, win, style);
    assert(oadd(oval(p2.0), oval(no_offset().0)) == Some(p2.0.raw as int));
    assert(oadd(oval(p2.1), oval(no_offset().1)) == Some(p2.1.raw as int));
    assert(process_commands(Seq::<DrawCommand>::empty(), no_offset(), cam, win, style)
        =~= Seq::<DrawItem>::empty());
    assert(out2.len() == 1);
    assert(out1 == seq![out1[0]] + out2);
    assert(out1.len() == 2);
}

} // verus!
