//! Where the dropdown list is drawn over the form, and what it lists.

use vstd::prelude::*;
use vstd::string::*;
use crate::app::{dropdown_size, App, AppView, DropdownTarget};
use crate::platform::{text_width, text_width_of};
use crate::text::{decimal, string_of, u64_to_string};
use crate::update::{current_choice, dropdown_names};

verus! {

/// The list's position counter, shown when not every item fits.
pub struct Indicator {
    pub text: String,
    pub x: u16,
    pub y: u16,
    pub width: usize,
}

/// Where the dropdown list goes and what it shows: its box, its title, and
/// the visible items (text, and whether the cursor is on it).
pub struct DropdownLayout {
    pub x: u16,
    pub y: u16,
    pub width: u16,
    pub height: u16,
    pub title: String,
    pub items: Vec<(String, bool)>,
    pub indicator: Option<Indicator>,
}

/// The widest display width among the names.
pub open spec fn widest(names: Seq<Seq<char>>) -> int
    decreases names.len(),
{
    if names.len() == 0 {
        0
    } else {
        let w = widest(names.drop_last());
        let l = text_width_of(names.last()) as int;
        if l > w {
            l
        } else {
            w
        }
    }
}

/// The most items shown at once.
pub open spec fn visible_count(len: nat) -> nat {
    if len < 12 {
        len
    } else {
        12
    }
}

/// The box width: the widest name plus room for the marker and border,
/// within the screen less four columns, and at least 20.
pub open spec fn box_width(widest: int, screen_width: int) -> int {
    let w = if widest + 6 < screen_width - 4 {
        widest + 6
    } else {
        screen_width - 4
    };
    if w < 20 {
        20
    } else {
        w
    }
}

/// The title of a dropdown.
pub open spec fn dropdown_title(t: DropdownTarget) -> Seq<char> {
    match t {
        DropdownTarget::LangIn => " 源语言 "@,
        DropdownTarget::LangOut => " 目标语言 "@,
        DropdownTarget::Engine => " 翻译引擎 "@,
    }
}

/// The first item shown: enough scrolled for the cursor to be the last
/// visible one when it is past the first page.
pub open spec fn list_scroll(cursor: int, visible: int) -> int {
    if cursor >= visible {
        cursor - visible + 1
    } else {
        0
    }
}

/// A visible item: `● ` before the current choice, and whether the cursor
/// is on it.
pub open spec fn list_item(v: AppView, t: DropdownTarget, i: int) -> (Seq<char>, bool) {
    (
        (if i == current_choice(v, t) {"● "@ } else { "  "@ }) + dropdown_names(v, t)[i],
        i == v.dropdown_cursor,
    )
}

/// The items shown: from the scroll position, as many as fit.
pub open spec fn list_items(v: AppView, t: DropdownTarget) -> Seq<(Seq<char>, bool)> {
    let len = dropdown_size(v, t) as int;
    let vis = visible_count(len as nat) as int;
    let s = list_scroll(v.dropdown_cursor as int, vis);
    let e = if s + vis < len {
        s + vis
    } else {
        len
    };
    Seq::new((if e > s {e - s } else { 0 }) as nat, |k: int| list_item(v, t, s + k))
}

/// The position counter's text.
pub open spec fn indicator_text(cursor: int, len: nat) -> Seq<char> {
    " "@ + decimal((cursor + 1) as nat) + "/"@ + decimal(len) + " "@
}

/// `a - b`, or 0.
pub open spec fn minus(a: int, b: int) -> int {
    if a > b {
        a - b
    } else {
        0
    }
}

/// Is the layout the one drawn for dropdown `t` on a screen `sw` by `sh`?
pub open spec fn layout_of(l: DropdownLayout, v: AppView, t: DropdownTarget, sw: int, sh: int) -> bool {
    let len = dropdown_size(v, t);
    let vis = visible_count(len) as int;
    let w = box_width(widest(dropdown_names(v, t)), sw);
    let h = vis + 2;
    let left = sw * 45 / 100;
    &&& l.width == w
    &&& l.height == h
    &&& l.x == (if w < left {(left - w) / 2 + 1 } else { 1 })
    &&& l.y == minus(sh, h) / 2
    &&& l.title@ == dropdown_title(t)
    &&& l.items@.map_values(|e: (String, bool)| (e.0@, e.1)) == list_items(v, t)
    &&& if len > vis {
        (l.indicator matches Some(ind) && {
            let text = indicator_text(v.dropdown_cursor as int, len);
            &&& ind.text@ == text
            &&& ind.x == l.x + minus(w, text.len() + 1int)
            &&& ind.y == l.y + minus(h, 1)
            &&& ind.width == text.len()
        })
    } else {
        l.indicator is None
    }
}

/// The widest display width among the names of a dropdown.
fn widest_name(app: &App, t: DropdownTarget) -> (r: usize)
    ensures
        r == widest(dropdown_names(app@, t)),
{
    let n = app.dropdown_len(t);
    let ghost names = dropdown_names(app@, t);
    let mut best: usize = 0;
    let mut i: usize = 0;
    assert(names.take(0) =~= Seq::<Seq<char>>::empty());
    while i < n
        invariant
            n == dropdown_size(app@, t),
            names == dropdown_names(app@, t),
            names.len() == n,
            i <= n,
            best == widest(names.take(i as int)),
        decreases n - i,
    {
        let name = app.dropdown_item(t, i);
        let w = text_width(name.as_str());
        proof {
            assert(names.take(i + 1).drop_last() =~= names.take(i as int));
            assert(names.take(i + 1).last() == names[i as int]);
        }
        if w > best {
            best = w;
        }
        i = i + 1;
    }
    assert(names.take(n as int) =~= names);
    best
}

/// The title of a dropdown.
fn title_of(t: DropdownTarget) -> (r: String)
    ensures
        r@ == dropdown_title(t),
{
    match t {
        DropdownTarget::LangIn => string_of(" 源语言 "),
        DropdownTarget::LangOut => string_of(" 目标语言 "),
        DropdownTarget::Engine => string_of(" 翻译引擎 "),
    }
}

/// The box width.
fn box_width_of(wide: usize, screen_width: u16) -> (r: u16)
    requires
        4 <= screen_width,
    ensures
        r == box_width(wide as int, screen_width as int),
{
    let room = (screen_width - 4) as usize;
    let w0: usize = if room >= 6 && wide < room - 6 {
        wide + 6
    } else {
        room
    };
    if w0 < 20 {
        20
    } else {
        w0 as u16
    }
}

/// The position counter, placed at the bottom right of a box at `x`, `y`
/// of `w` by `h`.
fn indicator_at(cursor: usize, len: usize, x: u16, y: u16, w: u16, h: u16) -> (r: Indicator)
    requires
        cursor < usize::MAX,
        1 <= h,
        x as int + w as int <= u16::MAX,
        y as int + h as int <= u16::MAX,
    ensures
        ({
            let text = indicator_text(cursor as int, len as nat);
            &&& r.text@ == text
            &&& r.x == x + minus(w as int, text.len() + 1int)
            &&& r.y == y + minus(h as int, 1)
            &&& r.width == text.len()
        }),
{
    let mut text = string_of(" ");
    text.append(u64_to_string((cursor + 1) as u64).as_str());
    text.append("/");
    text.append(u64_to_string(len as u64).as_str());
    text.append(" ");
    let tl = text.as_str().unicode_len();
    let ix: u16 = if (w as usize) > tl && (w as usize) - tl > 1 {
        x + (((w as usize) - tl - 1) as u16)
    } else {
        x
    };
    let iy: u16 = y + (h - 1);
    Indicator {text, x: ix, y: iy, width: tl }
}

impl App {
    /// The items shown of dropdown `t`, from `s` up to `e`.
    fn list_items_exec(&self, t: DropdownTarget, s: usize, e: usize) -> (r: Vec<(String, bool)>)
        requires
            e <= dropdown_size(self@, t),
        ensures
            r@.map_values(|x: (String, bool)| (x.0@, x.1)) == Seq::new(
                (if e > s {e - s } else { 0 }) as nat,
                |k: int| list_item(self@, t, s + k),
            ),
    {
        let ghost want = Seq::new((if e > s {e - s } else { 0 }) as nat, |k: int| list_item(self@, t, s + k));
        let choice = match t {
            DropdownTarget::LangIn => self.lang_in_idx,
            DropdownTarget::LangOut => self.lang_out_idx,
            DropdownTarget::Engine => self.engine_idx,
        };
        let cursor = self.dropdown_cursor;
        let mut items: Vec<(String, bool)> = Vec::new();
        let mut i: usize = s;
        while i < e
            invariant
                e <= dropdown_size(self@, t),
                s <= e ==> s <= i <= e,
                s > e ==> i == s,
                choice == current_choice(self@, t),
                cursor == self.dropdown_cursor,
                want == Seq::new((if e > s {e - s } else { 0 }) as nat, |k: int| list_item(self@, t, s + k)),
                items@.map_values(|x: (String, bool)| (x.0@, x.1)) == want.take(
                    if i > s {(i - s) as int } else { 0 },
                ),
            decreases e - i,
        {
            let name = self.dropdown_item(t, i);
            let mut text = string_of(if i == choice {"● " } else { "  " });
            text.append(name.as_str());
            let ghost before = items@;
            items.push((text, i == cursor));
            proof {
                let f = |x: (String, bool)| (x.0@, x.1);
                assert(want[(i - s) as int] == list_item(self@, t, i as int));
                assert(items@.map_values(f) =~= before.map_values(f).push(f((text, i == cursor))));
                assert(want.take((i + 1 - s) as int) =~= want.take((i - s) as int).push(want[(i - s) as int]));
            }
            i = i + 1;
        }
        proof {
            assert(want.take(if e > s {(e - s) as int } else { 0 }) =~= want);
        }
        items
    }

    /// Where the open dropdown is drawn on a `screen_width` by
    /// `screen_height` screen, and what it shows; nothing when the list is
    /// empty.
    pub fn dropdown_layout(&self, t: DropdownTarget, screen_width: u16, screen_height: u16) -> (r: Option<DropdownLayout>)
        requires
            4 <= screen_width,
            screen_width * 45 <= u16::MAX,
            self.dropdown_cursor < usize::MAX,
        ensures
            dropdown_size(self@, t) == 0 ==> r is None,
            dropdown_size(self@, t) > 0 ==> (r matches Some(l) && layout_of(
                l,
                self@,
                t,
                screen_width as int,
                screen_height as int,
            )),
    {
        let len = self.dropdown_len(t);
        if len == 0 {
            return None;
        }
        let vis: usize = if len < 12 {
            len
        } else {
            12
        };
        let w = box_width_of(widest_name(self, t), screen_width);
        let h: u16 = (vis + 2) as u16;
        let left: u16 = screen_width * 45 / 100;
        let x: u16 = if w < left {
            (left - w) / 2 + 1
        } else {
            1
        };
        let y: u16 = if screen_height > h {
            (screen_height - h) / 2
        } else {
            0
        };
        let cursor = self.dropdown_cursor;
        let s: usize = if cursor >= vis {
            cursor - vis + 1
        } else {
            0
        };
        let e: usize = if s < len && vis < len - s {
            s + vis
        } else {
            len
        };
        let items = self.list_items_exec(t, s, e);
        let indicator = if len > vis {
            Some(indicator_at(cursor, len, x, y, w, h))
        } else {
            None
        };
        Some(DropdownLayout {x, y, width: w, height: h, title: title_of(t), items, indicator })
    }
}

} // verus!
