//! The popup that lists the keys of a page: where it stands and how its
//! entries are laid out in columns.

use vstd::prelude::*;
use vstd::string::StringSliceAdditionalSpecFns;
use vstd::utf8::encode_utf8;

verus! {

/// A rectangle of the screen, in cells.
#[derive(Debug, Clone, Copy, Hash, PartialEq, Eq, Structural)]
pub struct Rect {
    pub x: u16,
    pub y: u16,
    pub width: u16,
    pub height: u16,
}

/// A key and what it does.
#[derive(Debug, Clone, PartialEq, Eq)]
pub struct HelpItem {
    pub key: String,
    pub description: String,
}

/// The popup that lists the keys of a page.
#[derive(Debug, Clone, PartialEq, Eq)]
pub struct HelpPopup {
    pub items: Vec<HelpItem>,
    pub title: Option<String>,
}

/// Where the popup stands and how its entries are laid out.
#[derive(Debug, Clone, Copy, Hash, PartialEq, Eq, Structural)]
pub struct PopupLayout {
    /// The rectangle of the popup, border included.
    pub area: Rect,
    /// The number of columns.
    pub columns: usize,
    /// The number of rows, which is the number of entries of the first
    /// column.
    pub rows: usize,
    /// The width of the widest key, in bytes.
    pub key_width: u16,
    /// The width of the widest description, in bytes.
    pub description_width: u16,
}

/// The blanks that go around an entry of the popup.
#[derive(Debug, Clone, Copy, Hash, PartialEq, Eq, Structural)]
pub struct Padding {
    /// The blanks before the key.
    pub before_key: usize,
    /// The blanks behind the description.
    pub after_description: usize,
}

/// The width of a text, in the bytes that it takes.
pub open spec fn byte_width(text: Seq<char>) -> int {
    encode_utf8(text).len() as int
}

/// The width of the widest key of a list, in bytes.
pub open spec fn widest_key(items: Seq<HelpItem>) -> int
    decreases items.len(),
{
    if items.len() == 0 {
        0
    } else {
        let before = widest_key(items.drop_last());
        let width = byte_width(items.last().key@);
        if width > before {
            width
        } else {
            before
        }
    }
}

/// The width of the widest description of a list, in bytes.
pub open spec fn widest_description(items: Seq<HelpItem>) -> int
    decreases items.len(),
{
    if items.len() == 0 {
        0
    } else {
        let before = widest_description(items.drop_last());
        let width = byte_width(items.last().description@);
        if width > before {
            width
        } else {
            before
        }
    }
}

/// The width of a column: the widest key, two cells, the widest
/// description.
pub open spec fn column_width(items: Seq<HelpItem>) -> int {
    widest_key(items) + 2 + widest_description(items)
}

/// The number of columns of the popup.
///
/// One column is enough where the entries fit below each other in the
/// height of the screen less four rows, or where that is nothing.
/// Else there are as many columns as take the entries at that height. There
/// are no more of them than fit beside each other in the width of the
/// screen less twenty cells, a column counted as twenty cells at least, and
/// there is one always.
pub open spec fn column_count(entries: int, screen: Rect, width: int) -> int {
    let height = if screen.height > 4 {
        screen.height - 4
    } else {
        0
    };
    let wanted = if entries <= height || height == 0 {
        1
    } else {
        (entries + height - 1) / height
    };
    let counted = if width > 20 {
        width
    } else {
        20
    };
    let room = if screen.width > 20 {
        (screen.width - 20) / counted
    } else {
        0
    };
    let possible = if room > 1 {
        room
    } else {
        1
    };
    if wanted < possible {
        wanted
    } else {
        possible
    }
}

/// The number of entries of a column: the entries are dealt out evenly, and
/// the columns to the left take what is left over, one each.
pub open spec fn column_size(entries: int, columns: int, column: int) -> int {
    entries / columns + if column < entries % columns {
        1int
    } else {
        0int
    }
}

/// The place of the first entry of a column among all entries.
pub open spec fn column_start(entries: int, columns: int, column: int) -> int
    decreases column,
{
    if column <= 0 {
        0
    } else {
        column_start(entries, columns, column - 1) + column_size(entries, columns, column - 1)
    }
}

/// The layout of a popup with a number of entries whose columns have a
/// width, on a screen; none where the popup does not fit the screen or a
/// measure of it cannot be counted in sixteen bits.
///
/// The columns stand four cells apart. The popup is twenty cells wide
/// inside at least, and has a border of one cell all around. It stands at
/// the right edge of the screen, one cell in, and one row above the bottom.
pub open spec fn layout_of(entries: int, width: int, key: int, description: int, screen: Rect) -> Option<
    PopupLayout,
> {
    let columns = column_count(entries, screen, width);
    let rows = column_size(entries, columns, 0);
    let inner = columns * width + (columns - 1) * 4;
    let popup_inner = if inner > 20 {
        inner
    } else {
        20
    };
    let popup_width = popup_inner + 2;
    let popup_height = rows + 2;
    let above = if screen.height > popup_height + 1 {
        screen.height - (popup_height + 1)
    } else {
        0
    };
    if width <= u16::MAX && rows <= u16::MAX && popup_width <= u16::MAX && popup_height + 1
        <= u16::MAX && screen.width > popup_width && screen.y + above <= u16::MAX {
        Some(
            PopupLayout {
                area: Rect {
                    x: (screen.width - popup_width - 1) as u16,
                    y: (screen.y + above) as u16,
                    width: popup_width as u16,
                    height: popup_height as u16,
                },
                columns: columns as usize,
                rows: rows as usize,
                key_width: key as u16,
                description_width: description as u16,
            },
        )
    } else {
        None
    }
}

/// The blanks around an entry whose key and description have a width, in
/// columns whose widest key and description have a width: the key stands
/// at the right of its place, one cell in, and the description is filled up
/// to the widest.
pub open spec fn padding_of(key: int, description: int, key_width: int, description_width: int) -> (
    int,
    int,
) {
    (
        if key_width + 2 - key > 1 {
            key_width + 2 - key - 1
        } else {
            0
        },
        if description_width > description {
            description_width - description
        } else {
            0
        },
    )
}

impl HelpPopup {
    /// A popup with entries and no title of its own.
    pub fn new(items: Vec<HelpItem>) -> (r: HelpPopup)
        ensures
            r.items == items,
            r.title is None,
    {
        HelpPopup { items, title: None }
    }

    /// The popup under a title.
    #[must_use]
    pub fn title(self, title: String) -> (r: HelpPopup)
        ensures
            r.items == self.items,
            r.title == Some(title),
    {
        HelpPopup { items: self.items, title: Some(title) }
    }

    /// The title that the popup is shown under: its own, or ` Keybinds `.
    pub fn shown_title(&self) -> (r: String)
        ensures
            r@ == match self.title {
                Some(title) => title@,
                None => " Keybinds "@,
            },
    {
        match &self.title {
            Some(title) => title.clone(),
            None => " Keybinds ".to_owned(),
        }
    }

    /// The widths of the widest key and the widest description, in bytes.
    pub fn widths(&self) -> (r: (usize, usize))
        ensures
            r.0 == widest_key(self.items@),
            r.1 == widest_description(self.items@),
    {
        let mut key: usize = 0;
        let mut description: usize = 0;
        let mut i: usize = 0;
        while i < self.items.len()
            invariant
                i <= self.items.len(),
                key == widest_key(self.items@.take(i as int)),
                description == widest_description(self.items@.take(i as int)),
            decreases self.items.len() - i,
        {
            proof {
                let next = self.items@.take(i + 1);
                assert(next.drop_last() =~= self.items@.take(i as int));
                assert(next.last() == self.items@[i as int]);
            }
            let k = self.items[i].key.as_str().as_bytes().len();
            if k > key {
                key = k;
            }
            let d = self.items[i].description.as_str().as_bytes().len();
            if d > description {
                description = d;
            }
            i += 1;
        }
        assert(self.items@.take(self.items@.len() as int) =~= self.items@);
        (key, description)
    }

    /// Where the popup stands on a screen and how its entries are laid
    /// out; none where it does not fit.
    pub fn layout(&self, screen: Rect) -> (r: Option<PopupLayout>)
        ensures
            r == layout_of(
                self.items@.len() as int,
                column_width(self.items@),
                widest_key(self.items@),
                widest_description(self.items@),
                screen,
            ),
    {
        let (key_width, description_width) = self.widths();
        let n_items: u64 = self.items.len() as u64;
        if key_width > 65535 || description_width > 65535 {
            return None;
        }
        let col_width: u64 = key_width as u64 + 2 + description_width as u64;
        if col_width > 65535 {
            return None;
        }
        let max_content_h: u64 = if screen.height > 4 {
            (screen.height - 4) as u64
        } else {
            0
        };
        let wanted: u64 = if n_items <= max_content_h || max_content_h == 0 {
            1
        } else {
            (n_items - 1) / max_content_h + 1
        };
        assert(wanted == if n_items <= max_content_h || max_content_h == 0 {
            1int
        } else {
            (n_items + max_content_h - 1) / (max_content_h as int)
        }) by (nonlinear_arith)
            requires
                wanted == if n_items <= max_content_h || max_content_h == 0 {
                    1int
                } else {
                    (n_items - 1) / (max_content_h as int) + 1
                },
                n_items >= 0,
                max_content_h >= 0,
        ;
        let counted: u64 = if col_width > 20 {
            col_width
        } else {
            20
        };
        let room: u64 = if screen.width > 20 {
            (screen.width - 20) as u64 / counted
        } else {
            0
        };
        let possible: u64 = if room > 1 {
            room
        } else {
            1
        };
        let num_cols: u64 = if wanted < possible {
            wanted
        } else {
            possible
        };
        assert(num_cols == column_count(n_items as int, screen, col_width as int));
        assert(room <= 65535) by (nonlinear_arith)
            requires
                room == if screen.width > 20 {
                    (screen.width - 20) / (counted as int)
                } else {
                    0
                },
                counted >= 20,
                screen.width <= 65535,
        ;
        let quotient: u64 = n_items / num_cols;
        if quotient > 65535 {
            return None;
        }
        let rows: u64 = quotient + if 0 < n_items % num_cols {
            1
        } else {
            0
        };
        if rows > 65535 {
            return None;
        }
        assert(num_cols * col_width <= 65535 * 65535) by (nonlinear_arith)
            requires
                1 <= num_cols <= 65535,
                0 <= col_width <= 65535,
        ;
        let inner: u64 = num_cols * col_width + (num_cols - 1) * 4;
        let popup_inner: u64 = if inner > 20 {
            inner
        } else {
            20
        };
        let popup_width: u64 = popup_inner + 2;
        let popup_height: u64 = rows + 2;
        let above: u64 = if screen.height as u64 > popup_height + 1 {
            screen.height as u64 - (popup_height + 1)
        } else {
            0
        };
        if popup_width > 65535 || popup_height + 1 > 65535 || screen.width as u64 <= popup_width
            || screen.y as u64 + above > 65535 {
            return None;
        }
        Some(
            PopupLayout {
                area: Rect {
                    x: (screen.width as u64 - popup_width - 1) as u16,
                    y: (screen.y as u64 + above) as u16,
                    width: popup_width as u16,
                    height: popup_height as u16,
                },
                columns: num_cols as usize,
                rows: rows as usize,
                key_width: key_width as u16,
                description_width: description_width as u16,
            },
        )
    }

    /// The blanks around an entry of the popup.
    pub fn padding(item: &HelpItem, layout: &PopupLayout) -> (r: Padding)
        ensures
            r.before_key == padding_of(
                byte_width(item.key@),
                byte_width(item.description@),
                layout.key_width as int,
                layout.description_width as int,
            ).0,
            r.after_description == padding_of(
                byte_width(item.key@),
                byte_width(item.description@),
                layout.key_width as int,
                layout.description_width as int,
            ).1,
    {
        let key = item.key.as_str().as_bytes().len();
        let description = item.description.as_str().as_bytes().len();
        let key_fixed_width: usize = layout.key_width as usize + 2;
        let before_key = key_fixed_width.saturating_sub(key).saturating_sub(1);
        let after_description = (layout.description_width as usize).saturating_sub(description);
        Padding { before_key, after_description }
    }
}

/// The entries of a column: the place of its first entry among all
/// entries, and their number.
pub fn column_range(entries: usize, columns: usize, column: usize) -> (r: (usize, usize))
    requires
        columns >= 1,
        column < columns,
    ensures
        r.0 == column_start(entries as int, columns as int, column as int),
        r.1 == column_size(entries as int, columns as int, column as int),
        r.0 + r.1 <= entries,
{
    let each: usize = entries / columns;
    let more: usize = entries % columns;
    proof {
        vstd::arithmetic::div_mod::lemma_fundamental_div_mod(entries as int, columns as int);
    }
    let mut start: usize = 0;
    let mut i: usize = 0;
    while i < column
        invariant
            i <= column < columns,
            each == entries / columns,
            more == entries % columns,
            entries == columns * each + more,
            start == column_start(entries as int, columns as int, i as int),
            start == i * each + if i < more {
                i
            } else {
                more
            },
        decreases column - i,
    {
        assert(columns * each >= each) by (nonlinear_arith)
            requires
                columns >= 1,
                each >= 0,
        ;
        let size: usize = if i < more {
            each + 1
        } else {
            each
        };
        assert((i + 1) * each + (if i + 1 < more {
            i + 1
        } else {
            more as int
        }) <= columns * each + more) by (nonlinear_arith)
            requires
                i + 1 <= columns,
                each >= 0,
                more >= 0,
        ;
        assert((i + 1) * each == i * each + each) by (nonlinear_arith);
        start += size;
        i += 1;
    }
    let size: usize = if column < more {
        assert((column + 1) * each + (column + 1) <= columns * each + more) by (nonlinear_arith)
            requires
                column + 1 <= columns,
                column + 1 <= more,
                each >= 0,
        ;
        assert((column + 1) * each == column * each + each) by (nonlinear_arith);
        each + 1
    } else {
        assert((column + 1) * each + more <= columns * each + more) by (nonlinear_arith)
            requires
                column + 1 <= columns,
                each >= 0,
        ;
        assert((column + 1) * each == column * each + each) by (nonlinear_arith);
        each
    };
    (start, size)
}

} // verus!
