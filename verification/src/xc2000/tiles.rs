//! The interconnect grid of an XC2000 .. XC5200 chip: the tile that sits on
//! each cell and the cells it reaches, the long-line and clock break tiles,
//! the connections between neighbouring cells and the roots of the wire
//! regions.
use vstd::prelude::*;
use crate::seqs::concat_map;
use crate::tile::{
    cells_view, conns_view, lemma_tiles_view_push, mk_tile, mk_tile1, mk_tile2, mk_tile3, mk_tile4, mk_tile_brk,
    push_conn, tile1, tile_brk, tiles_view, ConnView, GridConn, GridTile, TileView,
};
use crate::grid::{ColId, DirH, DirV, RowId};
use crate::xc2000::chip::{Chip, ChipKind, IoTileClass};

verus! {

// ---------------------------------------------------------------- main tiles

impl Chip {
    /// The main tile of a cell of an XC2000 chip: corner, edge and middle
    /// variants of the CLB tile.
    pub open spec fn xc2000_main_tile(self, c: int, r: int) -> TileView {
        let e = self.sp_col_e();
        let n = self.sp_row_n();
        let m = self.sp_row_mid();
        if c == 0 {
            if r == 0 {
                ("CLB_SW"@, c, r, seq![(c, r), (c + 1, r)])
            } else if r == n {
                ("CLB_NW"@, c, r, seq![(c, r), (c, r - 1), (c + 1, r)])
            } else if r == m - 1 {
                ("CLB_MW"@, c, r, seq![(c, r), (c, r - 1)])
            } else {
                ("CLB_W"@, c, r, seq![(c, r), (c, r - 1)])
            }
        } else if c == e {
            if r == 0 {
                tile1("CLB_SE"@, c, r)
            } else if r == n {
                ("CLB_NE"@, c, r, seq![(c, r), (c, r - 1)])
            } else if r == m - 1 {
                ("CLB_ME"@, c, r, seq![(c, r), (c, r - 1)])
            } else {
                ("CLB_E"@, c, r, seq![(c, r), (c, r - 1)])
            }
        } else if r == 0 {
            (if c == e - 1 { "CLB_SE1"@ } else { "CLB_S"@ }, c, r, seq![(c, r), (c + 1, r)])
        } else if r == n {
            (if c == e - 1 { "CLB_NE1"@ } else { "CLB_N"@ }, c, r, seq![(c, r), (c + 1, r)])
        } else {
            tile1("CLB"@, c, r)
        }
    }

    fn xc2000_main(&self, c: usize, r: usize) -> (t: GridTile)
        requires
            c < self.columns,
            r < self.rows,
        ensures
            t@ == self.xc2000_main_tile(c as int, r as int),
    {
        let e = self.columns - 1;
        let n = self.rows - 1;
        let m = self.rows / 2;
        if c == 0 {
            if r == 0 {
                mk_tile2("CLB_SW", c, r, (c + 1, r))
            } else if r == n {
                mk_tile3("CLB_NW", c, r, (c, r - 1), (c + 1, r))
            } else if m >= 1 && r == m - 1 {
                mk_tile2("CLB_MW", c, r, (c, r - 1))
            } else {
                mk_tile2("CLB_W", c, r, (c, r - 1))
            }
        } else if c == e {
            if r == 0 {
                mk_tile1("CLB_SE", c, r)
            } else if r == n {
                mk_tile2("CLB_NE", c, r, (c, r - 1))
            } else if m >= 1 && r == m - 1 {
                mk_tile2("CLB_ME", c, r, (c, r - 1))
            } else {
                mk_tile2("CLB_E", c, r, (c, r - 1))
            }
        } else if r == 0 {
            mk_tile2(if c + 1 == e { "CLB_SE1" } else { "CLB_S" }, c, r, (c + 1, r))
        } else if r == n {
            mk_tile2(if c + 1 == e { "CLB_NE1" } else { "CLB_N" }, c, r, (c + 1, r))
        } else {
            mk_tile1("CLB", c, r)
        }
    }

    /// The main tile of a cell of an XC5200 chip: a corner, an edge IO tile
    /// or a CLB, each on its own cell.
    pub open spec fn xc5200_main_tile(self, c: int, r: int) -> TileView {
        let e = self.sp_col_e();
        let n = self.sp_row_n();
        tile1(
            if c == 0 {
                if r == 0 {
                    "CNR_SW"@
                } else if r == n {
                    "CNR_NW"@
                } else {
                    "IO_W"@
                }
            } else if c == e {
                if r == 0 {
                    "CNR_SE"@
                } else if r == n {
                    "CNR_NE"@
                } else {
                    "IO_E"@
                }
            } else if r == 0 {
                "IO_S"@
            } else if r == n {
                "IO_N"@
            } else {
                "CLB"@
            },
            c,
            r,
        )
    }

    fn xc5200_main(&self, c: usize, r: usize) -> (t: GridTile)
        requires
            c < self.columns,
            r < self.rows,
        ensures
            t@ == self.xc5200_main_tile(c as int, r as int),
    {
        let e = self.columns - 1;
        let n = self.rows - 1;
        let class = if c == 0 {
            if r == 0 {
                "CNR_SW"
            } else if r == n {
                "CNR_NW"
            } else {
                "IO_W"
            }
        } else if c == e {
            if r == 0 {
                "CNR_SE"
            } else if r == n {
                "CNR_NE"
            } else {
                "IO_E"
            }
        } else if r == 0 {
            "IO_S"
        } else if r == n {
            "IO_N"
        } else {
            "CLB"
        };
        mk_tile1(class, c, r)
    }
}

/// The name of the `s`-th of three tile classes.
pub open spec fn pick3(s: int, a: Seq<char>, b: Seq<char>, c: Seq<char>) -> Seq<char> {
    if s == 0 {
        a
    } else if s == 1 {
        b
    } else {
        c
    }
}

fn pick3_str(s: usize, a: &'static str, b: &'static str, c: &'static str) -> (r: &'static str)
    ensures
        r@ == pick3(s as int, a@, b@, c@),
{
    if s == 0 {
        a
    } else if s == 1 {
        b
    } else {
        c
    }
}

/// The name of an XC4000 edge IO tile class.
pub open spec fn io_tile_class_name(t: IoTileClass) -> Seq<char> {
    match t {
        IoTileClass::IoS0 => "IO_S0"@,
        IoTileClass::IoS1 => "IO_S1"@,
        IoTileClass::IoS1W => "IO_S1_W"@,
        IoTileClass::IoS0E => "IO_S0_E"@,
        IoTileClass::IoN0 => "IO_N0"@,
        IoTileClass::IoN1 => "IO_N1"@,
        IoTileClass::IoN1W => "IO_N1_W"@,
        IoTileClass::IoN0E => "IO_N0_E"@,
        IoTileClass::IoW0 => "IO_W0"@,
        IoTileClass::IoW1 => "IO_W1"@,
        IoTileClass::IoW1S => "IO_W1_S"@,
        IoTileClass::IoW0N => "IO_W0_N"@,
        IoTileClass::IoW0F0 => "IO_W0_F0"@,
        IoTileClass::IoW1F0 => "IO_W1_F0"@,
        IoTileClass::IoW0F1 => "IO_W0_F1"@,
        IoTileClass::IoW1F1 => "IO_W1_F1"@,
        IoTileClass::IoE0 => "IO_E0"@,
        IoTileClass::IoE1 => "IO_E1"@,
        IoTileClass::IoE1S => "IO_E1_S"@,
        IoTileClass::IoE0N => "IO_E0_N"@,
        IoTileClass::IoE0F0 => "IO_E0_F0"@,
        IoTileClass::IoE1F0 => "IO_E1_F0"@,
        IoTileClass::IoE0F1 => "IO_E0_F1"@,
        IoTileClass::IoE1F1 => "IO_E1_F1"@,
    }
}

impl IoTileClass {
    /// The name of the tile class.
    pub fn name(&self) -> (r: &'static str)
        ensures
            r@ == io_tile_class_name(*self),
    {
        match self {
            IoTileClass::IoS0 => "IO_S0",
            IoTileClass::IoS1 => "IO_S1",
            IoTileClass::IoS1W => "IO_S1_W",
            IoTileClass::IoS0E => "IO_S0_E",
            IoTileClass::IoN0 => "IO_N0",
            IoTileClass::IoN1 => "IO_N1",
            IoTileClass::IoN1W => "IO_N1_W",
            IoTileClass::IoN0E => "IO_N0_E",
            IoTileClass::IoW0 => "IO_W0",
            IoTileClass::IoW1 => "IO_W1",
            IoTileClass::IoW1S => "IO_W1_S",
            IoTileClass::IoW0N => "IO_W0_N",
            IoTileClass::IoW0F0 => "IO_W0_F0",
            IoTileClass::IoW1F0 => "IO_W1_F0",
            IoTileClass::IoW0F1 => "IO_W0_F1",
            IoTileClass::IoW1F1 => "IO_W1_F1",
            IoTileClass::IoE0 => "IO_E0",
            IoTileClass::IoE1 => "IO_E1",
            IoTileClass::IoE1S => "IO_E1_S",
            IoTileClass::IoE0N => "IO_E0_N",
            IoTileClass::IoE0F0 => "IO_E0_F0",
            IoTileClass::IoE1F0 => "IO_E1_F0",
            IoTileClass::IoE0F1 => "IO_E0_F1",
            IoTileClass::IoE1F1 => "IO_E1_F1",
        }
    }
}

impl Chip {
    /// Which of the three CLB variants of an XC3000 chip a cell takes: the
    /// variants repeat every three rows and shift by two every column.
    pub open spec fn xc3000_subkind(self, c: int, r: int) -> int {
        (r + 2 * (self.columns - 1 - c)) % 3
    }

    /// The corners of a small XC3000 chip take the variants that its tile
    /// classes exist for.
    pub open spec fn xc3000_corners_ok(self) -> bool {
        self.is_small ==> self.xc3000_subkind(0, 0) == 2 && self.xc3000_subkind(0, self.sp_row_n()) == 0
            && self.xc3000_subkind(self.sp_col_e(), self.sp_row_n()) == 1
    }

    /// The main tile of a cell of an XC3000 chip: corner, edge and middle
    /// variants of the CLB tile, in three variants by position (four on the
    /// east edge).
    pub open spec fn xc3000_main_tile(self, c: int, r: int) -> TileView {
        let e = self.sp_col_e();
        let n = self.sp_row_n();
        let s = self.xc3000_subkind(c, r);
        if c == 0 {
            if r == 0 {
                (
                    if self.is_small {
                        "CLB_SW2_S"@
                    } else {
                        pick3(s, "CLB_SW0_L"@, "CLB_SW1_L"@, "CLB_SW2_L"@)
                    },
                    c,
                    r,
                    seq![(c, r), (c + 1, r), (c, r + 1)],
                )
            } else if r == n {
                (
                    if self.is_small {
                        "CLB_NW0_S"@
                    } else {
                        pick3(s, "CLB_NW0_L"@, "CLB_NW1_L"@, "CLB_NW2_L"@)
                    },
                    c,
                    r,
                    seq![(c, r), (c + 1, r), (c, r - 1)],
                )
            } else {
                (pick3(s, "CLB_W0"@, "CLB_W1"@, "CLB_W2"@), c, r, seq![(c, r), (c + 1, r), (c, r - 1), (c, r + 1)])
            }
        } else if c == e {
            if r == 0 {
                (if self.is_small { "CLB_SE0_S"@ } else { "CLB_SE0_L"@ }, c, r, seq![(c, r), (c, r + 1)])
            } else if r == n {
                (
                    if self.is_small {
                        "CLB_NE1_S"@
                    } else {
                        pick3(s, "CLB_NE0_L"@, "CLB_NE1_L"@, "CLB_NE2_L"@)
                    },
                    c,
                    r,
                    seq![(c, r), (c, r - 1)],
                )
            } else {
                (
                    if s == 1 && r == n - 1 {
                        "CLB_E3"@
                    } else {
                        pick3(s, "CLB_E0"@, "CLB_E1"@, "CLB_E2"@)
                    },
                    c,
                    r,
                    seq![(c, r), (c, r - 1), (c, r + 1)],
                )
            }
        } else if r == 0 {
            (pick3(s, "CLB_S0"@, "CLB_S1"@, "CLB_S2"@), c, r, seq![(c, r), (c + 1, r), (c, r + 1)])
        } else if r == n {
            (
                if self.is_small {
                    pick3(s, "CLB_N0_S"@, "CLB_N1_S"@, "CLB_N2_S"@)
                } else {
                    pick3(s, "CLB_N0_L"@, "CLB_N1_L"@, "CLB_N2_L"@)
                },
                c,
                r,
                seq![(c, r), (c + 1, r), (c, r - 1)],
            )
        } else {
            (pick3(s, "CLB0"@, "CLB1"@, "CLB2"@), c, r, seq![(c, r), (c + 1, r), (c, r - 1), (c, r + 1)])
        }
    }

    fn xc3000_main(&self, c: usize, r: usize) -> (t: GridTile)
        requires
            c < self.columns,
            r < self.rows,
            3 * self.columns + 3 * self.rows <= usize::MAX,
        ensures
            t@ == self.xc3000_main_tile(c as int, r as int),
    {
        let e = self.columns - 1;
        let n = self.rows - 1;
        let s = (r + 2 * (e - c)) % 3;
        if c == 0 {
            if r == 0 {
                let class = if self.is_small {
                    "CLB_SW2_S"
                } else {
                    pick3_str(s, "CLB_SW0_L", "CLB_SW1_L", "CLB_SW2_L")
                };
                mk_tile3(class, c, r, (c + 1, r), (c, r + 1))
            } else if r == n {
                let class = if self.is_small {
                    "CLB_NW0_S"
                } else {
                    pick3_str(s, "CLB_NW0_L", "CLB_NW1_L", "CLB_NW2_L")
                };
                mk_tile3(class, c, r, (c + 1, r), (c, r - 1))
            } else {
                mk_tile4(pick3_str(s, "CLB_W0", "CLB_W1", "CLB_W2"), c, r, (c + 1, r), (c, r - 1), (c, r + 1))
            }
        } else if c == e {
            if r == 0 {
                mk_tile2(if self.is_small { "CLB_SE0_S" } else { "CLB_SE0_L" }, c, r, (c, r + 1))
            } else if r == n {
                let class = if self.is_small {
                    "CLB_NE1_S"
                } else {
                    pick3_str(s, "CLB_NE0_L", "CLB_NE1_L", "CLB_NE2_L")
                };
                mk_tile2(class, c, r, (c, r - 1))
            } else {
                let class = if s == 1 && r + 1 == n {
                    "CLB_E3"
                } else {
                    pick3_str(s, "CLB_E0", "CLB_E1", "CLB_E2")
                };
                mk_tile3(class, c, r, (c, r - 1), (c, r + 1))
            }
        } else if r == 0 {
            mk_tile3(pick3_str(s, "CLB_S0", "CLB_S1", "CLB_S2"), c, r, (c + 1, r), (c, r + 1))
        } else if r == n {
            let class = if self.is_small {
                pick3_str(s, "CLB_N0_S", "CLB_N1_S", "CLB_N2_S")
            } else {
                pick3_str(s, "CLB_N0_L", "CLB_N1_L", "CLB_N2_L")
            };
            mk_tile3(class, c, r, (c + 1, r), (c, r - 1))
        } else {
            mk_tile4(pick3_str(s, "CLB0", "CLB1", "CLB2"), c, r, (c + 1, r), (c, r - 1), (c, r + 1))
        }
    }

    /// The CLB tile class of an inner cell of an XC4000 chip: its variant
    /// by the row (bottom, top or middle row of CLBs) and the column (west,
    /// east or middle column of CLBs).
    pub open spec fn xc4000_clb_class(self, c: int, r: int) -> Seq<char> {
        let e = self.sp_col_e();
        let n = self.sp_row_n();
        if r == 1 {
            if c == 1 {
                "CLB_SW"@
            } else if c == e - 1 {
                "CLB_SE"@
            } else {
                "CLB_S"@
            }
        } else if r == n - 1 {
            if c == 1 {
                "CLB_NW"@
            } else if c == e - 1 {
                "CLB_NE"@
            } else {
                "CLB_N"@
            }
        } else if c == 1 {
            "CLB_W"@
        } else if c == e - 1 {
            "CLB_E"@
        } else {
            "CLB"@
        }
    }

    /// The main tile of a cell of an XC4000 chip: the corners, the edge IO
    /// tiles and the CLBs.
    pub open spec fn xc4000_main_tile(self, c: int, r: int) -> TileView {
        let e = self.sp_col_e();
        let n = self.sp_row_n();
        if c == 0 {
            if r == 0 {
                ("CNR_SW"@, c, r, seq![(c, r), (c + 1, r)])
            } else if r == n {
                ("CNR_NW"@, c, r, seq![(c, r), (c + 1, r), (c, r - 1), (c + 1, r - 1)])
            } else {
                (io_tile_class_name(self.spec_tcls_io_w(r)), c, r, seq![(c, r), (c, r - 1), (c + 1, r), (c, r + 1)])
            }
        } else if c == e {
            if r == 0 {
                tile1("CNR_SE"@, c, r)
            } else if r == n {
                ("CNR_NE"@, c, r, seq![(c, r), (c, r - 1)])
            } else {
                (io_tile_class_name(self.spec_tcls_io_e(r)), c, r, seq![(c, r), (c, r - 1), (c, r + 1)])
            }
        } else if r == 0 {
            (io_tile_class_name(self.spec_tcls_io_s(c)), c, r, seq![(c, r), (c, r + 1), (c + 1, r), (c - 1, r)])
        } else if r == n {
            (io_tile_class_name(self.spec_tcls_io_n(c)), c, r, seq![(c, r), (c + 1, r), (c - 1, r)])
        } else {
            (self.xc4000_clb_class(c, r), c, r, seq![(c, r), (c, r + 1), (c + 1, r)])
        }
    }

    fn xc4000_main(&self, c: usize, r: usize) -> (t: GridTile)
        requires
            self.kind.spec_is_xc4000(),
            c < self.columns,
            r < self.rows,
            self.columns >= 2,
            self.rows >= 2,
            3 * self.columns + 3 * self.rows <= usize::MAX,
            self.kind.spec_is_xl() && self.is_buff_large ==> self.sp_row_q(DirV::N) >= 2,
        ensures
            t@ == self.xc4000_main_tile(c as int, r as int),
    {
        let e = self.columns - 1;
        let n = self.rows - 1;
        if c == 0 {
            if r == 0 {
                mk_tile2("CNR_SW", c, r, (c + 1, r))
            } else if r == n {
                mk_tile4("CNR_NW", c, r, (c + 1, r), (c, r - 1), (c + 1, r - 1))
            } else {
                let t = self.get_tcls_io_w(RowId(r));
                mk_tile4(t.name(), c, r, (c, r - 1), (c + 1, r), (c, r + 1))
            }
        } else if c == e {
            if r == 0 {
                mk_tile1("CNR_SE", c, r)
            } else if r == n {
                mk_tile2("CNR_NE", c, r, (c, r - 1))
            } else {
                let t = self.get_tcls_io_e(RowId(r));
                mk_tile3(t.name(), c, r, (c, r - 1), (c, r + 1))
            }
        } else if r == 0 {
            let t = self.get_tcls_io_s(ColId(c));
            mk_tile4(t.name(), c, r, (c, r + 1), (c + 1, r), (c - 1, r))
        } else if r == n {
            let t = self.get_tcls_io_n(ColId(c));
            mk_tile3(t.name(), c, r, (c + 1, r), (c - 1, r))
        } else {
            let class = if r == 1 {
                if c == 1 {
                    "CLB_SW"
                } else if c + 1 == e {
                    "CLB_SE"
                } else {
                    "CLB_S"
                }
            } else if r + 1 == n {
                if c == 1 {
                    "CLB_NW"
                } else if c + 1 == e {
                    "CLB_NE"
                } else {
                    "CLB_N"
                }
            } else if c == 1 {
                "CLB_W"
            } else if c + 1 == e {
                "CLB_E"
            } else {
                "CLB"
            };
            mk_tile3(class, c, r, (c, r + 1), (c + 1, r))
        }
    }
}

// ---------------------------------------------------------------- break tiles

/// The class of a break tile in row `r` of a column of `n + 1` rows: `a`
/// at the bottom, `b` at the top, `c` just above the bottom, `d` just
/// below the top, `m` elsewhere.
pub open spec fn by_row(r: int, n: int, a: Seq<char>, b: Seq<char>, c: Seq<char>, d: Seq<char>, m: Seq<char>) -> Seq<
    char,
> {
    if r == 0 {
        a
    } else if r == n {
        b
    } else if r == 1 {
        c
    } else if r == n - 1 {
        d
    } else {
        m
    }
}

/// The class of a break tile in column `c` of a row of `e + 1` columns:
/// `w` at the west edge, `ee` at the east edge, `m` elsewhere.
pub open spec fn by_col(c: int, e: int, w: Seq<char>, ee: Seq<char>, m: Seq<char>) -> Seq<char> {
    if c == 0 {
        w
    } else if c == e {
        ee
    } else {
        m
    }
}

/// A column of break tiles south to north, each reaching the cell west of it.
pub open spec fn brk_col(
    col: int,
    rows: nat,
    a: Seq<char>,
    b: Seq<char>,
    c: Seq<char>,
    d: Seq<char>,
    m: Seq<char>,
) -> Seq<TileView> {
    Seq::new(rows, |r: int| tile_brk(by_row(r, rows - 1, a, b, c, d, m), col, r, col - 1, r))
}

/// A row of break tiles west to east, each reaching the cell south of it.
pub open spec fn brk_row(row: int, cols: nat, w: Seq<char>, e: Seq<char>, m: Seq<char>) -> Seq<TileView> {
    Seq::new(cols, |c: int| tile_brk(by_col(c, cols - 1, w, e, m), c, row, c, row - 1))
}

fn by_row_str(
    r: usize,
    n: usize,
    a: &'static str,
    b: &'static str,
    c: &'static str,
    d: &'static str,
    m: &'static str,
) -> (x: &'static str)
    ensures
        x@ == by_row(r as int, n as int, a@, b@, c@, d@, m@),
{
    if r == 0 {
        a
    } else if r == n {
        b
    } else if r == 1 {
        c
    } else if n >= 1 && r == n - 1 {
        d
    } else {
        m
    }
}

fn by_col_str(c: usize, e: usize, w: &'static str, ee: &'static str, m: &'static str) -> (x: &'static str)
    ensures
        x@ == by_col(c as int, e as int, w@, ee@, m@),
{
    if c == 0 {
        w
    } else if c == e {
        ee
    } else {
        m
    }
}

fn push_brk_col(
    out: &mut Vec<GridTile>,
    col: usize,
    rows: usize,
    a: &'static str,
    b: &'static str,
    c: &'static str,
    d: &'static str,
    m: &'static str,
)
    requires
        col >= 1,
        rows >= 1,
    ensures
        tiles_view(final(out)@) == tiles_view(old(out)@) + brk_col(col as int, rows as nat, a@, b@, c@, d@, m@),
{
    let mut r: usize = 0;
    while r < rows
        invariant
            r <= rows,
            col >= 1,
            rows >= 1,
            tiles_view(out@) == tiles_view(old(out)@) + brk_col(col as int, rows as nat, a@, b@, c@, d@, m@).take(
                r as int,
            ),
        decreases rows - r,
    {
        let ghost o0 = out@;
        let t = mk_tile_brk(by_row_str(r, rows - 1, a, b, c, d, m), col, r, col - 1, r);
        out.push(t);
        proof {
            lemma_tiles_view_push(o0, t);
        }
        r = r + 1;
        assert(tiles_view(out@) =~= tiles_view(old(out)@) + brk_col(col as int, rows as nat, a@, b@, c@, d@, m@).take(
            r as int,
        ));
    }
    assert(brk_col(col as int, rows as nat, a@, b@, c@, d@, m@).take(rows as int) =~= brk_col(
        col as int,
        rows as nat,
        a@,
        b@,
        c@,
        d@,
        m@,
    ));
}

fn push_brk_row(out: &mut Vec<GridTile>, row: usize, cols: usize, w: &'static str, e: &'static str, m: &'static str)
    requires
        row >= 1,
        cols >= 1,
    ensures
        tiles_view(final(out)@) == tiles_view(old(out)@) + brk_row(row as int, cols as nat, w@, e@, m@),
{
    let mut c: usize = 0;
    while c < cols
        invariant
            c <= cols,
            row >= 1,
            cols >= 1,
            tiles_view(out@) == tiles_view(old(out)@) + brk_row(row as int, cols as nat, w@, e@, m@).take(c as int),
        decreases cols - c,
    {
        let ghost o0 = out@;
        let t = mk_tile_brk(by_col_str(c, cols - 1, w, e, m), c, row, c, row - 1);
        out.push(t);
        proof {
            lemma_tiles_view_push(o0, t);
        }
        c = c + 1;
        assert(tiles_view(out@) =~= tiles_view(old(out)@) + brk_row(row as int, cols as nat, w@, e@, m@).take(
            c as int,
        ));
    }
    assert(brk_row(row as int, cols as nat, w@, e@, m@).take(cols as int) =~= brk_row(
        row as int,
        cols as nat,
        w@,
        e@,
        m@,
    ));
}

impl Chip {
    /// The tiles of a bidirectional break column of an XC2000 chip.
    pub open spec fn bidih_col(self, col: int) -> Seq<TileView> {
        Seq::new(
            self.rows as nat,
            |r: int| tile1(by_row(r, self.sp_row_n(), "BIDIH_S"@, "BIDIH_N"@, "BIDIH"@, "BIDIH"@, "BIDIH"@), col, r),
        )
    }

    /// The tiles of a bidirectional break row of an XC2000 chip: each
    /// reaches only the cell below it.
    pub open spec fn bidiv_row(self, row: int) -> Seq<TileView> {
        Seq::new(
            self.columns as nat,
            |c: int| (by_col(c, self.sp_col_e(), "BIDIV_W"@, "BIDIV_E"@, "BIDIV"@), c, row, seq![(c, row - 1)]),
        )
    }

    pub open spec fn bidih_fn(self) -> spec_fn(int) -> Seq<TileView> {
        |i: int| self.bidih_col(self.cols_bidi@[i].0 as int)
    }

    pub open spec fn bidiv_fn(self) -> spec_fn(int) -> Seq<TileView> {
        |i: int| self.bidiv_row(self.rows_bidi@[i].0 as int)
    }

    /// The break tiles of an XC2000 chip: those of the bidirectional break
    /// columns, then those of the bidirectional break rows.
    pub open spec fn xc2000_break_tiles(self) -> Seq<TileView> {
        concat_map(self.cols_bidi@.len(), self.bidih_fn()) + concat_map(self.rows_bidi@.len(), self.bidiv_fn())
    }

    /// The break tiles of an XC3000 chip: the long-line breaks at the south
    /// and north ends of the middle column, those of the middle row (at its
    /// ends only on small chips), and the east misc tile.
    pub open spec fn xc3000_break_tiles(self) -> Seq<TileView> {
        let mc = self.sp_col_mid();
        let m = self.sp_row_mid();
        let e = self.sp_col_e();
        let n = self.sp_row_n();
        seq![tile_brk("LLH_S"@, mc, 0, mc - 1, 0), tile_brk("LLH_N"@, mc, n, mc - 1, n)] + (if self.is_small {
            seq![tile_brk("LLVS_W"@, 0, m, 0, m - 1), tile_brk("LLVS_E"@, e, m, e, m - 1)]
        } else {
            brk_row(m, self.columns as nat, "LLV_W"@, "LLV_E"@, "LLV"@)
        }) + seq![("MISC_E"@, e, m, Seq::<(int, int)>::empty())]
    }

    /// The break tiles of an XC4000 chip.  On the XC4000X kinds: the quarter
    /// and middle long-line break columns, the quarter and middle break
    /// rows, and the quarter clock tiles (four on the XC4000XV, two in the
    /// middle column otherwise); on the others: the middle break column and
    /// row.
    pub open spec fn xc4000_break_tiles(self) -> Seq<TileView> {
        let rows = self.rows as nat;
        let cols = self.columns as nat;
        let mc = self.sp_col_mid();
        let m = self.sp_row_mid();
        let qw = self.sp_col_q(DirH::W);
        let qe = self.sp_col_q(DirH::E);
        let qs = self.sp_row_q(DirV::S);
        let qn = self.sp_row_q(DirV::N);
        if self.kind.spec_is_xl() {
            brk_col(qw, rows, "LLHQ_IO_S"@, "LLHQ_IO_N"@, "LLHQ_CLB_S"@, "LLHQ_CLB_N"@, "LLHQ_CLB"@) + brk_col(
                qe,
                rows,
                "LLHQ_IO_S"@,
                "LLHQ_IO_N"@,
                "LLHQ_CLB_S"@,
                "LLHQ_CLB_N"@,
                "LLHQ_CLB"@,
            ) + brk_col(mc, rows, "LLHC_IO_S"@, "LLHC_IO_N"@, "LLHC_CLB_S"@, "LLHC_CLB"@, "LLHC_CLB"@) + brk_row(
                qs,
                cols,
                "LLVQ_IO_SW"@,
                "LLVQ_IO_SE"@,
                "LLVQ_CLB"@,
            ) + brk_row(qn, cols, "LLVQ_IO_NW"@, "LLVQ_IO_NE"@, "LLVQ_CLB"@) + brk_row(
                m,
                cols,
                "LLVC_IO_W"@,
                "LLVC_IO_E"@,
                "LLVC_CLB"@,
            ) + if self.kind is Xc4000Xv {
                seq![
                    tile_brk("CLKQ"@, qw, qs, qw - 1, qs),
                    tile_brk("CLKQ"@, qe, qs, qe - 1, qs),
                    tile_brk("CLKQ"@, qw, qn, qw - 1, qn),
                    tile_brk("CLKQ"@, qe, qn, qe - 1, qn),
                ]
            } else {
                seq![tile1("CLKQC"@, mc, qs), tile1("CLKQC"@, mc, qn)]
            }
        } else {
            brk_col(mc, rows, "LLH_IO_S"@, "LLH_IO_N"@, "LLH_CLB_S"@, "LLH_CLB"@, "LLH_CLB"@) + brk_row(
                m,
                cols,
                "LLV_IO_W"@,
                "LLV_IO_E"@,
                "LLV_CLB"@,
            )
        }
    }

    /// The break tiles of an XC5200 chip: the middle break row, then the
    /// middle break column.
    pub open spec fn xc5200_break_tiles(self) -> Seq<TileView> {
        brk_row(self.sp_row_mid(), self.columns as nat, "LLV_W"@, "LLV_E"@, "LLV"@) + brk_col(
            self.sp_col_mid(),
            self.rows as nat,
            "LLH_S"@,
            "LLH_N"@,
            "LLH"@,
            "LLH"@,
            "LLH"@,
        )
    }

    /// The main tile of a cell.
    pub open spec fn spec_main_tile(self, c: int, r: int) -> TileView {
        match self.kind {
            ChipKind::Xc2000 => self.xc2000_main_tile(c, r),
            ChipKind::Xc3000 | ChipKind::Xc3000A => self.xc3000_main_tile(c, r),
            ChipKind::Xc5200 => self.xc5200_main_tile(c, r),
            _ => self.xc4000_main_tile(c, r),
        }
    }

    /// The break tiles of the chip.
    pub open spec fn spec_break_tiles(self) -> Seq<TileView> {
        match self.kind {
            ChipKind::Xc2000 => self.xc2000_break_tiles(),
            ChipKind::Xc3000 | ChipKind::Xc3000A => self.xc3000_break_tiles(),
            ChipKind::Xc5200 => self.xc5200_break_tiles(),
            _ => self.xc4000_break_tiles(),
        }
    }

    /// The interconnect grid of the chip can be laid out: it has cells (at
    /// least two columns and rows where a middle break line must have a
    /// column or row before it, or where the XC4000 edge tiles need them),
    /// its indices fit, the corners of a small XC3000 take the variants their
    /// classes exist for, and the XC2000 break lines lie within the grid
    /// (break rows above the bottom row).
    pub open spec fn grid_ok(self) -> bool {
        &&& self.columns >= 1
        &&& self.rows >= 1
        &&& 3 * self.columns + 3 * self.rows <= usize::MAX
        &&& !(self.kind is Xc2000) ==> self.columns >= 2 && self.rows >= 2
        &&& self.kind.spec_is_xc3000() ==> self.xc3000_corners_ok()
        &&& self.kind.spec_is_xl() && self.is_buff_large ==> self.sp_row_q(DirV::N) >= 2
        &&& self.kind is Xc2000 ==> (forall|i: int|
            0 <= i < self.cols_bidi@.len() ==> (#[trigger] self.cols_bidi@[i]).0 < self.columns) && (forall|i: int|
            0 <= i < self.rows_bidi@.len() ==> 1 <= (#[trigger] self.rows_bidi@[i]).0 < self.rows)
    }

    /// The main tile of a cell.
    pub fn main_tile(&self, col: ColId, row: RowId) -> (t: GridTile)
        requires
            self.grid_ok(),
            col.0 < self.columns,
            row.0 < self.rows,
        ensures
            t@ == self.spec_main_tile(col.0 as int, row.0 as int),
    {
        match self.kind {
            ChipKind::Xc2000 => self.xc2000_main(col.0, row.0),
            ChipKind::Xc3000 | ChipKind::Xc3000A => self.xc3000_main(col.0, row.0),
            ChipKind::Xc5200 => self.xc5200_main(col.0, row.0),
            _ => self.xc4000_main(col.0, row.0),
        }
    }

    fn push_bidih_col(&self, out: &mut Vec<GridTile>, col: usize)
        requires
            self.rows >= 1,
        ensures
            tiles_view(final(out)@) == tiles_view(old(out)@) + self.bidih_col(col as int),
    {
        let n = self.rows - 1;
        let mut r: usize = 0;
        while r < self.rows
            invariant
                r <= self.rows,
                n == self.sp_row_n(),
                tiles_view(out@) == tiles_view(old(out)@) + self.bidih_col(col as int).take(r as int),
            decreases self.rows - r,
        {
            let ghost o0 = out@;
            let t = mk_tile1(by_row_str(r, n, "BIDIH_S", "BIDIH_N", "BIDIH", "BIDIH", "BIDIH"), col, r);
            out.push(t);
            proof {
                lemma_tiles_view_push(o0, t);
            }
            r = r + 1;
            assert(tiles_view(out@) =~= tiles_view(old(out)@) + self.bidih_col(col as int).take(r as int));
        }
        assert(self.bidih_col(col as int).take(self.rows as int) =~= self.bidih_col(col as int));
    }

    fn push_bidiv_row(&self, out: &mut Vec<GridTile>, row: usize)
        requires
            self.columns >= 1,
            row >= 1,
        ensures
            tiles_view(final(out)@) == tiles_view(old(out)@) + self.bidiv_row(row as int),
    {
        let e = self.columns - 1;
        let mut c: usize = 0;
        while c < self.columns
            invariant
                c <= self.columns,
                row >= 1,
                e == self.sp_col_e(),
                tiles_view(out@) == tiles_view(old(out)@) + self.bidiv_row(row as int).take(c as int),
            decreases self.columns - c,
        {
            let ghost o0 = out@;
            let mut cells: Vec<(usize, usize)> = Vec::new();
            cells.push((c, row - 1));
            let t = mk_tile(by_col_str(c, e, "BIDIV_W", "BIDIV_E", "BIDIV"), c, row, cells);
            assert(cells_view(cells@) =~= seq![(c as int, row - 1)]);
            assert(t@ == self.bidiv_row(row as int)[c as int]);
            out.push(t);
            proof {
                lemma_tiles_view_push(o0, t);
            }
            c = c + 1;
            assert(tiles_view(out@) =~= tiles_view(old(out)@) + self.bidiv_row(row as int).take(c as int));
        }
        assert(self.bidiv_row(row as int).take(self.columns as int) =~= self.bidiv_row(row as int));
    }

    /// The break tiles of the chip.
    pub fn break_tiles(&self) -> (r: Vec<GridTile>)
        requires
            self.grid_ok(),
        ensures
            tiles_view(r@) == self.spec_break_tiles(),
    {
        let mut out: Vec<GridTile> = Vec::new();
        assert(tiles_view(out@) =~= Seq::<TileView>::empty());
        match self.kind {
            ChipKind::Xc2000 => {
                let mut i: usize = 0;
                while i < self.cols_bidi.len()
                    invariant
                        i <= self.cols_bidi@.len(),
                        self.grid_ok(),
                        self.kind is Xc2000,
                        tiles_view(out@) == concat_map(i as nat, self.bidih_fn()),
                    decreases self.cols_bidi@.len() - i,
                {
                    self.push_bidih_col(&mut out, self.cols_bidi[i].0);
                    i = i + 1;
                }
                let ghost o1 = tiles_view(out@);
                let mut i: usize = 0;
                while i < self.rows_bidi.len()
                    invariant
                        i <= self.rows_bidi@.len(),
                        self.grid_ok(),
                        self.kind is Xc2000,
                        tiles_view(out@) == o1 + concat_map(i as nat, self.bidiv_fn()),
                    decreases self.rows_bidi@.len() - i,
                {
                    assert(1 <= self.rows_bidi@[i as int].0);
                    self.push_bidiv_row(&mut out, self.rows_bidi[i].0);
                    i = i + 1;
                }
            },
            ChipKind::Xc3000 | ChipKind::Xc3000A => {
                let mc = self.col_mid().0;
                let m = self.row_mid().0;
                let e = self.columns - 1;
                let n = self.rows - 1;
                let ghost o0 = out@;
                let t = mk_tile_brk("LLH_S", mc, 0, mc - 1, 0);
                out.push(t);
                proof {
                    lemma_tiles_view_push(o0, t);
                }
                let ghost o0 = out@;
                let t = mk_tile_brk("LLH_N", mc, n, mc - 1, n);
                out.push(t);
                proof {
                    lemma_tiles_view_push(o0, t);
                }
                if self.is_small {
                    let ghost o0 = out@;
                    let t = mk_tile_brk("LLVS_W", 0, m, 0, m - 1);
                    out.push(t);
                    proof {
                        lemma_tiles_view_push(o0, t);
                    }
                    let ghost o0 = out@;
                    let t = mk_tile_brk("LLVS_E", e, m, e, m - 1);
                    out.push(t);
                    proof {
                        lemma_tiles_view_push(o0, t);
                    }
                } else {
                    push_brk_row(&mut out, m, self.columns, "LLV_W", "LLV_E", "LLV");
                }
                let ghost o0 = out@;
                let t = mk_tile("MISC_E", e, m, Vec::new());
                assert(cells_view(Seq::<(usize, usize)>::empty()) =~= Seq::<(int, int)>::empty());
                out.push(t);
                proof {
                    lemma_tiles_view_push(o0, t);
                }
            },
            ChipKind::Xc5200 => {
                push_brk_row(&mut out, self.row_mid().0, self.columns, "LLV_W", "LLV_E", "LLV");
                push_brk_col(&mut out, self.col_mid().0, self.rows, "LLH_S", "LLH_N", "LLH", "LLH", "LLH");
            },
            _ => {
                let mc = self.col_mid().0;
                let m = self.row_mid().0;
                if self.kind.is_xl() {
                    let qw = self.col_q(DirH::W).0;
                    let qe = self.col_q(DirH::E).0;
                    let qs = self.row_q(DirV::S).0;
                    let qn = self.row_q(DirV::N).0;
                    push_brk_col(&mut out, qw, self.rows, "LLHQ_IO_S", "LLHQ_IO_N", "LLHQ_CLB_S", "LLHQ_CLB_N", "LLHQ_CLB");
                    push_brk_col(&mut out, qe, self.rows, "LLHQ_IO_S", "LLHQ_IO_N", "LLHQ_CLB_S", "LLHQ_CLB_N", "LLHQ_CLB");
                    push_brk_col(&mut out, mc, self.rows, "LLHC_IO_S", "LLHC_IO_N", "LLHC_CLB_S", "LLHC_CLB", "LLHC_CLB");
                    push_brk_row(&mut out, qs, self.columns, "LLVQ_IO_SW", "LLVQ_IO_SE", "LLVQ_CLB");
                    push_brk_row(&mut out, qn, self.columns, "LLVQ_IO_NW", "LLVQ_IO_NE", "LLVQ_CLB");
                    push_brk_row(&mut out, m, self.columns, "LLVC_IO_W", "LLVC_IO_E", "LLVC_CLB");
                    if matches!(self.kind, ChipKind::Xc4000Xv) {
                        let ghost o0 = out@;
                        let t = mk_tile_brk("CLKQ", qw, qs, qw - 1, qs);
                        out.push(t);
                        proof {
                            lemma_tiles_view_push(o0, t);
                        }
                        let ghost o0 = out@;
                        let t = mk_tile_brk("CLKQ", qe, qs, qe - 1, qs);
                        out.push(t);
                        proof {
                            lemma_tiles_view_push(o0, t);
                        }
                        let ghost o0 = out@;
                        let t = mk_tile_brk("CLKQ", qw, qn, qw - 1, qn);
                        out.push(t);
                        proof {
                            lemma_tiles_view_push(o0, t);
                        }
                        let ghost o0 = out@;
                        let t = mk_tile_brk("CLKQ", qe, qn, qe - 1, qn);
                        out.push(t);
                        proof {
                            lemma_tiles_view_push(o0, t);
                        }
                    } else {
                        let ghost o0 = out@;
                        let t = mk_tile1("CLKQC", mc, qs);
                        out.push(t);
                        proof {
                            lemma_tiles_view_push(o0, t);
                        }
                        let ghost o0 = out@;
                        let t = mk_tile1("CLKQC", mc, qn);
                        out.push(t);
                        proof {
                            lemma_tiles_view_push(o0, t);
                        }
                    }
                } else {
                    push_brk_col(&mut out, mc, self.rows, "LLH_IO_S", "LLH_IO_N", "LLH_CLB_S", "LLH_CLB", "LLH_CLB");
                    push_brk_row(&mut out, m, self.columns, "LLV_IO_W", "LLV_IO_E", "LLV_CLB");
                }
            },
        }
        proof {
            assert(tiles_view(out@) =~= self.spec_break_tiles());
        }
        out
    }
}

// ---------------------------------------------------------------- the whole grid

impl Chip {
    pub open spec fn main_col_fn(self) -> spec_fn(int) -> Seq<TileView> {
        |c: int| Seq::new(self.rows as nat, |r: int| self.spec_main_tile(c, r))
    }

    /// The tiles of the grid: the main tile of each cell, column by column
    /// from the west and each column from the south, then the break tiles.
    pub open spec fn spec_grid_tiles(self) -> Seq<TileView> {
        concat_map(self.columns as nat, self.main_col_fn()) + self.spec_break_tiles()
    }

    /// The tiles of the grid.
    pub fn grid_tiles(&self) -> (r: Vec<GridTile>)
        requires
            self.grid_ok(),
        ensures
            tiles_view(r@) == self.spec_grid_tiles(),
    {
        let mut out: Vec<GridTile> = Vec::new();
        let ghost f = self.main_col_fn();
        let mut c: usize = 0;
        while c < self.columns
            invariant
                c <= self.columns,
                self.grid_ok(),
                f == self.main_col_fn(),
                tiles_view(out@) == concat_map(c as nat, f),
            decreases self.columns - c,
        {
            let ghost o1 = tiles_view(out@);
            let mut r: usize = 0;
            while r < self.rows
                invariant
                    r <= self.rows,
                    c < self.columns,
                    self.grid_ok(),
                    tiles_view(out@) == o1 + f(c as int).take(r as int),
                    f == self.main_col_fn(),
                decreases self.rows - r,
            {
                let ghost o0 = out@;
                let t = self.main_tile(ColId(c), RowId(r));
                out.push(t);
                proof {
                    lemma_tiles_view_push(o0, t);
                }
                r = r + 1;
                assert(tiles_view(out@) =~= o1 + f(c as int).take(r as int));
            }
            assert(f(c as int).take(self.rows as int) =~= f(c as int));
            c = c + 1;
        }
        let mut brk = self.break_tiles();
        let ghost o2 = out@;
        let ghost b = brk@;
        out.append(&mut brk);
        assert(tiles_view(o2 + b) =~= tiles_view(o2) + tiles_view(b));
        out
    }
}

// ---------------------------------------------------------------- connections

/// A connection between two neighbouring cells: the connector class on the
/// neighbour's side and the one on the cell's side.
pub type ConnPair = (Seq<char>, Seq<char>);

impl Chip {
    /// The connection of a cell with its west neighbour (none in the west
    /// column): the XC4000 CLBs of the second column take their own class on
    /// their west side.
    pub open spec fn spec_conn_w(self, c: int, r: int) -> Option<ConnPair> {
        if c == 0 {
            None
        } else if self.kind.spec_is_xc4000() && c == 1 && r != 0 && r != self.sp_row_n() {
            Some(("PASS_E"@, "PASS_CLB_W_W"@))
        } else {
            Some(("PASS_E"@, "PASS_W"@))
        }
    }

    /// The connection of a cell with its south neighbour (none in the south
    /// row): the XC4000 top IO tiles between the corners take their own class
    /// on the side of the CLB below.
    pub open spec fn spec_conn_s(self, c: int, r: int) -> Option<ConnPair> {
        if r == 0 {
            None
        } else if self.kind.spec_is_xc4000() && r == self.sp_row_n() && c != 0 && c != self.sp_col_e() {
            Some(("PASS_CLB_N_N"@, "PASS_S"@))
        } else {
            Some(("PASS_N"@, "PASS_S"@))
        }
    }

    /// The connection of a cell with its west neighbour.
    pub fn conn_w(&self, col: ColId, row: RowId) -> (p: Option<(&'static str, &'static str)>)
        requires
            self.rows >= 1,
        ensures
            match p {
                Some(x) => self.spec_conn_w(col.0 as int, row.0 as int) == Some((x.0@, x.1@)),
                None => self.spec_conn_w(col.0 as int, row.0 as int) is None,
            },
    {
        if col.0 == 0 {
            None
        } else if self.kind.is_xc4000() && col.0 == 1 && row.0 != 0 && row.0 != self.rows - 1 {
            Some(("PASS_E", "PASS_CLB_W_W"))
        } else {
            Some(("PASS_E", "PASS_W"))
        }
    }

    /// The connection of a cell with its south neighbour.
    pub fn conn_s(&self, col: ColId, row: RowId) -> (p: Option<(&'static str, &'static str)>)
        requires
            self.rows >= 1,
            self.columns >= 1,
        ensures
            match p {
                Some(x) => self.spec_conn_s(col.0 as int, row.0 as int) == Some((x.0@, x.1@)),
                None => self.spec_conn_s(col.0 as int, row.0 as int) is None,
            },
    {
        if row.0 == 0 {
            None
        } else if self.kind.is_xc4000() && row.0 == self.rows - 1 && col.0 != 0 && col.0 != self.columns - 1 {
            Some(("PASS_CLB_N_N", "PASS_S"))
        } else {
            Some(("PASS_N", "PASS_S"))
        }
    }

    /// The connections of cell `(c, r)`: with its west neighbour, then with
    /// its south neighbour, where it has them.
    pub open spec fn conn_cell_fn(self, c: int) -> spec_fn(int) -> Seq<ConnView> {
        |r: int|
            (match self.spec_conn_w(c, r) {
                Some(p) => seq![(c - 1, r, p.0, c, r, p.1)],
                None => Seq::empty(),
            }) + match self.spec_conn_s(c, r) {
                Some(p) => seq![(c, r - 1, p.0, c, r, p.1)],
                None => Seq::empty(),
            }
    }

    pub open spec fn conn_col_fn(self) -> spec_fn(int) -> Seq<ConnView> {
        |c: int| concat_map(self.rows as nat, self.conn_cell_fn(c))
    }

    /// The connections between neighbouring cells of the grid, cell by
    /// cell, column by column.
    pub open spec fn spec_grid_conns(self) -> Seq<ConnView> {
        concat_map(self.columns as nat, self.conn_col_fn())
    }

    /// The connections between neighbouring cells of the grid.
    pub fn grid_conns(&self) -> (r: Vec<GridConn>)
        requires
            self.has_cells(),
        ensures
            conns_view(r@) == self.spec_grid_conns(),
    {
        let mut out: Vec<GridConn> = Vec::new();
        assert(conns_view(out@) =~= Seq::<ConnView>::empty());
        let ghost f = self.conn_col_fn();
        let mut c: usize = 0;
        while c < self.columns
            invariant
                c <= self.columns,
                self.has_cells(),
                f == self.conn_col_fn(),
                conns_view(out@) == concat_map(c as nat, f),
            decreases self.columns - c,
        {
            let ghost o0 = conns_view(out@);
            let ghost g = self.conn_cell_fn(c as int);
            let mut r: usize = 0;
            while r < self.rows
                invariant
                    r <= self.rows,
                    c < self.columns,
                    self.has_cells(),
                    g == self.conn_cell_fn(c as int),
                    conns_view(out@) == o0 + concat_map(r as nat, g),
                decreases self.rows - r,
            {
                let ghost o1 = conns_view(out@);
                match self.conn_w(ColId(c), RowId(r)) {
                    Some(p) => push_conn(&mut out, c - 1, r, p.0, c, r, p.1),
                    None => {},
                }
                match self.conn_s(ColId(c), RowId(r)) {
                    Some(p) => push_conn(&mut out, c, r - 1, p.0, c, r, p.1),
                    None => {},
                }
                assert(conns_view(out@) =~= o1 + g(r as int));
                r = r + 1;
            }
            assert(conns_view(out@) =~= o0 + f(c as int));
            c = c + 1;
        }
        out
    }

    /// The terminators at the corners: on the XC4000 and XC5200, each corner
    /// cell ends its wires with its own class (south-west, south-east,
    /// north-west, north-east); the others have none.
    pub open spec fn spec_corner_terms(self) -> Seq<(Seq<char>, int, int)> {
        let e = self.sp_col_e();
        let n = self.sp_row_n();
        if self.kind.spec_is_xc4000() || self.kind is Xc5200 {
            seq![("CNR_SW"@, 0, 0), ("CNR_SE"@, e, 0), ("CNR_NW"@, 0, n), ("CNR_NE"@, e, n)]
        } else {
            Seq::empty()
        }
    }

    /// The terminators at the corners.
    pub fn corner_terms(&self) -> (r: Vec<(&'static str, usize, usize)>)
        requires
            self.has_cells(),
        ensures
            r@.map_values(|t: (&'static str, usize, usize)| (t.0@, t.1 as int, t.2 as int)) == self.spec_corner_terms(),
    {
        let e = self.columns - 1;
        let n = self.rows - 1;
        let mut r: Vec<(&'static str, usize, usize)> = Vec::new();
        if self.kind.is_xc4000() || matches!(self.kind, ChipKind::Xc5200) {
            r.push(("CNR_SW", 0, 0));
            r.push(("CNR_SE", e, 0));
            r.push(("CNR_NW", 0, n));
            r.push(("CNR_NE", e, n));
        }
        assert(r@.map_values(|t: (&'static str, usize, usize)| (t.0@, t.1 as int, t.2 as int)) =~= self.spec_corner_terms());
        r
    }
}

// ---------------------------------------------------------------- wire regions

/// A region slot: a kind of wire whose cells share a root cell.
#[derive(Clone, Copy, Debug, PartialEq, Eq, Structural, Hash)]
pub enum RegionSlot {
    Global,
    LongH,
    LongHIo0,
    LongHTbuf,
    DecH,
    BufglsH,
    GclkH,
    LongV,
    LongVIo0,
    LongVIo1,
    DecV,
    Gclk,
    BufgeV,
    GclkV,
}

impl Chip {
    /// The root of a horizontal half: the west or east column.
    pub open spec fn root_h(self, c: int, r: int) -> (int, int) {
        (if c < self.sp_col_mid() { 0 } else { self.sp_col_e() }, r)
    }

    /// The root of a vertical half: the south or north row.
    pub open spec fn root_v(self, c: int, r: int) -> (int, int) {
        (c, if r < self.sp_row_mid() { 0 } else { self.sp_row_n() })
    }

    /// The root of a horizontal quarter of an XC4000X chip.
    pub open spec fn root_qh(self, c: int, r: int) -> (int, int) {
        let qw = self.sp_col_q(DirH::W);
        let qe = self.sp_col_q(DirH::E);
        (
            if c < self.sp_col_mid() {
                if c < qw {
                    0
                } else {
                    qw
                }
            } else if c < qe {
                qe - 1
            } else {
                self.sp_col_e()
            },
            r,
        )
    }

    /// The root of a vertical quarter of an XC4000X chip.
    pub open spec fn root_qv(self, c: int, r: int) -> (int, int) {
        let qs = self.sp_row_q(DirV::S);
        let qn = self.sp_row_q(DirV::N);
        (
            c,
            if r < self.sp_row_mid() {
                if r < qs {
                    0
                } else {
                    qs
                }
            } else if r < qn {
                qn - 1
            } else {
                self.sp_row_n()
            },
        )
    }

    /// The root cell of the region of a slot that holds a cell, if the
    /// family has that slot.
    pub open spec fn spec_region_root(self, slot: RegionSlot, c: int, r: int) -> Option<(int, int)> {
        let e = self.sp_col_e();
        let n = self.sp_row_n();
        let mc = self.sp_col_mid();
        let m = self.sp_row_mid();
        match self.kind {
            ChipKind::Xc2000 => match slot {
                RegionSlot::Global => Some((0, 0)),
                RegionSlot::LongH => Some((0, r)),
                RegionSlot::LongV => Some((c, 0)),
                _ => None,
            },
            ChipKind::Xc3000 | ChipKind::Xc3000A => match slot {
                RegionSlot::Global => Some((0, 0)),
                RegionSlot::LongH => Some((0, r)),
                RegionSlot::LongHIo0 => Some(self.root_h(c, r)),
                RegionSlot::LongV => Some((c, if r < m || self.is_small { 0 } else { n })),
                RegionSlot::LongVIo0 => Some(self.root_v(c, r)),
                RegionSlot::LongVIo1 => Some((c, 0)),
                _ => None,
            },
            ChipKind::Xc5200 => match slot {
                RegionSlot::GclkH => Some((0, r)),
                RegionSlot::LongH => Some(self.root_h(c, r)),
                RegionSlot::GclkV => Some((c, 0)),
                RegionSlot::LongV => Some(self.root_v(c, r)),
                _ => None,
            },
            _ => if self.kind.spec_is_xl() {
                match slot {
                    RegionSlot::Global => Some((0, 0)),
                    RegionSlot::LongH => Some(self.root_qh(c, r)),
                    RegionSlot::BufglsH => Some(
                        if self.kind is Xc4000Xv {
                            self.root_qh(c, r)
                        } else {
                            (mc, r)
                        },
                    ),
                    RegionSlot::LongHTbuf => Some(
                        if r == 0 || r == n {
                            self.root_qh(c, r)
                        } else {
                            self.root_h(c, r)
                        },
                    ),
                    RegionSlot::DecH => Some(self.root_h(c, r)),
                    RegionSlot::LongV => Some(self.root_qv(c, r)),
                    RegionSlot::DecV => Some(self.root_v(c, r)),
                    RegionSlot::Gclk => Some(
                        (c, if r < m { self.sp_row_q(DirV::S) } else { self.sp_row_q(DirV::N) }),
                    ),
                    RegionSlot::BufgeV => Some((c, 0)),
                    _ => None,
                }
            } else {
                match slot {
                    RegionSlot::Global => Some((0, 0)),
                    RegionSlot::LongH => Some(self.root_h(c, r)),
                    RegionSlot::LongHTbuf => Some(self.root_h(c, r)),
                    RegionSlot::DecH => Some(self.root_h(c, r)),
                    RegionSlot::LongV => Some(self.root_v(c, r)),
                    RegionSlot::DecV => Some(self.root_v(c, r)),
                    RegionSlot::Gclk => Some((c, m)),
                    _ => None,
                }
            },
        }
    }

    fn exec_root_h(&self, c: usize, r: usize) -> (p: (usize, usize))
        requires
            self.columns >= 1,
        ensures
            (p.0 as int, p.1 as int) == self.root_h(c as int, r as int),
    {
        (if c < self.columns / 2 { 0 } else { self.columns - 1 }, r)
    }

    fn exec_root_v(&self, c: usize, r: usize) -> (p: (usize, usize))
        requires
            self.rows >= 1,
        ensures
            (p.0 as int, p.1 as int) == self.root_v(c as int, r as int),
    {
        (c, if r < self.rows / 2 { 0 } else { self.rows - 1 })
    }

    fn exec_root_qh(&self, c: usize, r: usize) -> (p: (usize, usize))
        requires
            self.columns >= 2,
            3 * self.columns <= usize::MAX,
        ensures
            (p.0 as int, p.1 as int) == self.root_qh(c as int, r as int),
    {
        let qw = self.col_q(DirH::W).0;
        let qe = self.col_q(DirH::E).0;
        (
            if c < self.columns / 2 {
                if c < qw {
                    0
                } else {
                    qw
                }
            } else if c < qe {
                qe - 1
            } else {
                self.columns - 1
            },
            r,
        )
    }

    fn exec_root_qv(&self, c: usize, r: usize) -> (p: (usize, usize))
        requires
            self.rows >= 2,
            3 * self.rows <= usize::MAX,
        ensures
            (p.0 as int, p.1 as int) == self.root_qv(c as int, r as int),
    {
        let qs = self.row_q(DirV::S).0;
        let qn = self.row_q(DirV::N).0;
        (
            c,
            if r < self.rows / 2 {
                if r < qs {
                    0
                } else {
                    qs
                }
            } else if r < qn {
                qn - 1
            } else {
                self.rows - 1
            },
        )
    }

    /// The root cell of the region of a slot that holds a cell.
    pub fn region_root(&self, slot: RegionSlot, col: ColId, row: RowId) -> (p: Option<(ColId, RowId)>)
        requires
            self.grid_ok(),
        ensures
            match p {
                Some(x) => self.spec_region_root(slot, col.0 as int, row.0 as int) == Some(
                    (x.0.0 as int, x.1.0 as int),
                ),
                None => self.spec_region_root(slot, col.0 as int, row.0 as int) is None,
            },
    {
        let c = col.0;
        let r = row.0;
        let n = self.rows - 1;
        let m = self.rows / 2;
        let res: Option<(usize, usize)> = match self.kind {
            ChipKind::Xc2000 => match slot {
                RegionSlot::Global => Some((0, 0)),
                RegionSlot::LongH => Some((0, r)),
                RegionSlot::LongV => Some((c, 0)),
                _ => None,
            },
            ChipKind::Xc3000 | ChipKind::Xc3000A => match slot {
                RegionSlot::Global => Some((0, 0)),
                RegionSlot::LongH => Some((0, r)),
                RegionSlot::LongHIo0 => Some(self.exec_root_h(c, r)),
                RegionSlot::LongV => Some((c, if r < m || self.is_small { 0 } else { n })),
                RegionSlot::LongVIo0 => Some(self.exec_root_v(c, r)),
                RegionSlot::LongVIo1 => Some((c, 0)),
                _ => None,
            },
            ChipKind::Xc5200 => match slot {
                RegionSlot::GclkH => Some((0, r)),
                RegionSlot::LongH => Some(self.exec_root_h(c, r)),
                RegionSlot::GclkV => Some((c, 0)),
                RegionSlot::LongV => Some(self.exec_root_v(c, r)),
                _ => None,
            },
            _ => if self.kind.is_xl() {
                match slot {
                    RegionSlot::Global => Some((0, 0)),
                    RegionSlot::LongH => Some(self.exec_root_qh(c, r)),
                    RegionSlot::BufglsH => Some(
                        if matches!(self.kind, ChipKind::Xc4000Xv) {
                            self.exec_root_qh(c, r)
                        } else {
                            (self.columns / 2, r)
                        },
                    ),
                    RegionSlot::LongHTbuf => Some(
                        if r == 0 || r == n {
                            self.exec_root_qh(c, r)
                        } else {
                            self.exec_root_h(c, r)
                        },
                    ),
                    RegionSlot::DecH => Some(self.exec_root_h(c, r)),
                    RegionSlot::LongV => Some(self.exec_root_qv(c, r)),
                    RegionSlot::DecV => Some(self.exec_root_v(c, r)),
                    RegionSlot::Gclk => Some(
                        (c, if r < m { self.row_q(DirV::S).0 } else { self.row_q(DirV::N).0 }),
                    ),
                    RegionSlot::BufgeV => Some((c, 0)),
                    _ => None,
                }
            } else {
                match slot {
                    RegionSlot::Global => Some((0, 0)),
                    RegionSlot::LongH => Some(self.exec_root_h(c, r)),
                    RegionSlot::LongHTbuf => Some(self.exec_root_h(c, r)),
                    RegionSlot::DecH => Some(self.exec_root_h(c, r)),
                    RegionSlot::LongV => Some(self.exec_root_v(c, r)),
                    RegionSlot::DecV => Some(self.exec_root_v(c, r)),
                    RegionSlot::Gclk => Some((c, m)),
                    _ => None,
                }
            },
        };
        match res {
            Some((a, b)) => Some((ColId(a), RowId(b))),
            None => None,
        }
    }
}

// ---------------------------------------------------------------- bitstream

/// The bitstream format of a chip.
#[derive(Clone, Copy, Debug, PartialEq, Eq, Structural, Hash)]
pub enum BitstreamKind {
    Xc2000,
    Xc4000,
    S40Xl,
    Xc5200,
}

impl Chip {
    /// The bitstream format of the chip: that of the XC2000 for the XC2000
    /// and XC3000 families, that of the XC4000 for the XC4000 family but the
    /// thirty-column Spartan-XL, which has its own, and that of the XC5200.
    pub open spec fn spec_bitstream_kind(self) -> BitstreamKind {
        match self.kind {
            ChipKind::Xc2000 | ChipKind::Xc3000 | ChipKind::Xc3000A => BitstreamKind::Xc2000,
            ChipKind::SpartanXl => if self.columns == 30 {
                BitstreamKind::S40Xl
            } else {
                BitstreamKind::Xc4000
            },
            ChipKind::Xc5200 => BitstreamKind::Xc5200,
            _ => BitstreamKind::Xc4000,
        }
    }

    /// The bitstream format of the chip.
    pub fn bitstream_kind(&self) -> (r: BitstreamKind)
        ensures
            r == self.spec_bitstream_kind(),
    {
        match self.kind {
            ChipKind::Xc2000 | ChipKind::Xc3000 | ChipKind::Xc3000A => BitstreamKind::Xc2000,
            ChipKind::SpartanXl => if self.columns == 30 {
                BitstreamKind::S40Xl
            } else {
                BitstreamKind::Xc4000
            },
            ChipKind::Xc5200 => BitstreamKind::Xc5200,
            _ => BitstreamKind::Xc4000,
        }
    }
}

} // verus!
