//! What expanding a Virtex 4 .. Virtex 7 device computes from its chips
//! alone: the special columns, the IOs that double as configuration pins,
//! the bank numbering of the dies and the order of the dies in the
//! bitstream.
use vstd::prelude::*;
use crate::grid::{ColId, DieId, RowId, TileIobId};
use crate::virtex4::bond::SharedCfgPad;
use crate::virtex4::chip::{Chip, ColumnKind, GtColumn, RegId};
use crate::virtex4::expanded::IoCoord;
use crate::virtex4::gtz::first_col_of_kind;

verus! {

/// The columns of a kind among the first `n` columns, west to east.
pub open spec fn kind_cols(cols: Seq<ColumnKind>, kind: ColumnKind, n: nat) -> Seq<ColId>
    decreases n,
{
    if n == 0 {
        Seq::empty()
    } else {
        kind_cols(cols, kind, (n - 1) as nat) + if cols[n - 1] == kind {
            seq![ColId((n - 1) as usize)]
        } else {
            Seq::empty()
        }
    }
}

/// The first IO column west (`west`) or east of column `col_cfg`, scanning
/// from column `i`.
pub open spec fn io_col_beside(cols: Seq<ColumnKind>, col_cfg: int, west: bool, i: int) -> Option<ColId>
    decreases cols.len() - i,
{
    if i < 0 || i >= cols.len() {
        None
    } else if cols[i] is Io && (if west { i < col_cfg } else { i > col_cfg }) {
        Some(ColId(i as usize))
    } else {
        io_col_beside(cols, col_cfg, west, i + 1)
    }
}

/// The column of the first transceiver column description west (`west`)
/// or east of column `col_cfg`, scanning from description `i`.
pub open spec fn gt_col_beside(gts: Seq<GtColumn>, col_cfg: int, west: bool, i: int) -> Option<ColId>
    decreases gts.len() - i,
{
    if i < 0 || i >= gts.len() {
        None
    } else if (if west { gts[i].col.0 < col_cfg } else { gts[i].col.0 > col_cfg }) {
        Some(gts[i].col)
    } else {
        gt_col_beside(gts, col_cfg, west, i + 1)
    }
}

/// The special columns of a device.
#[derive(Clone, Copy, Debug, PartialEq, Eq, Hash)]
pub struct DeviceCols {
    pub col_cfg: ColId,
    pub col_clk: ColId,
    pub col_lio: Option<ColId>,
    pub col_rio: Option<ColId>,
    pub col_lgt: Option<ColId>,
    pub col_rgt: Option<ColId>,
    pub col_mgt: Option<(ColId, ColId)>,
}

fn find_kind_cols(chip: &Chip, kind: ColumnKind) -> (r: Vec<ColId>)
    ensures
        r@ == kind_cols(chip.columns@, kind, chip.columns@.len()),
{
    let mut r: Vec<ColId> = Vec::new();
    let mut i: usize = 0;
    while i < chip.columns.len()
        invariant
            i <= chip.columns@.len(),
            r@ == kind_cols(chip.columns@, kind, i as nat),
        decreases chip.columns@.len() - i,
    {
        if chip.columns[i] == kind {
            r.push(ColId(i));
        }
        i = i + 1;
        assert(r@ =~= kind_cols(chip.columns@, kind, i as nat));
    }
    r
}

fn find_first_kind(chip: &Chip, kind: ColumnKind) -> (r: usize)
    ensures
        r == first_col_of_kind(chip.columns@, kind, 0),
{
    let mut i: usize = 0;
    while i < chip.columns.len()
        invariant
            i <= chip.columns@.len(),
            first_col_of_kind(chip.columns@, kind, 0) == first_col_of_kind(chip.columns@, kind, i as int),
        decreases chip.columns@.len() - i,
    {
        if chip.columns[i] == kind {
            return i;
        }
        i = i + 1;
    }
    i
}

fn find_io_beside(chip: &Chip, col_cfg: usize, west: bool) -> (r: Option<ColId>)
    ensures
        r == io_col_beside(chip.columns@, col_cfg as int, west, 0),
{
    let mut i: usize = 0;
    while i < chip.columns.len()
        invariant
            i <= chip.columns@.len(),
            io_col_beside(chip.columns@, col_cfg as int, west, 0) == io_col_beside(
                chip.columns@,
                col_cfg as int,
                west,
                i as int,
            ),
        decreases chip.columns@.len() - i,
    {
        if chip.columns[i] == ColumnKind::Io && (if west { i < col_cfg } else { i > col_cfg }) {
            return Some(ColId(i));
        }
        i = i + 1;
    }
    None
}

fn find_gt_beside(chip: &Chip, col_cfg: usize, west: bool) -> (r: Option<ColId>)
    ensures
        r == gt_col_beside(chip.cols_gt@, col_cfg as int, west, 0),
{
    let mut i: usize = 0;
    while i < chip.cols_gt.len()
        invariant
            i <= chip.cols_gt@.len(),
            gt_col_beside(chip.cols_gt@, col_cfg as int, west, 0) == gt_col_beside(
                chip.cols_gt@,
                col_cfg as int,
                west,
                i as int,
            ),
        decreases chip.cols_gt@.len() - i,
    {
        let c = chip.cols_gt[i].col;
        if if west { c.0 < col_cfg } else { c.0 > col_cfg } {
            return Some(c);
        }
        i = i + 1;
    }
    None
}

/// The special columns of a Virtex 4: the configuration column (which also
/// carries the clock spine), the two IO columns, and the transceiver columns
/// west and east of the configuration column.
pub open spec fn spec_v4_cols(chip: Chip) -> DeviceCols {
    let cfg = first_col_of_kind(chip.columns@, ColumnKind::Cfg, 0);
    let ios = kind_cols(chip.columns@, ColumnKind::Io, chip.columns@.len());
    DeviceCols {
        col_cfg: ColId(cfg as usize),
        col_clk: ColId(cfg as usize),
        col_lio: Some(ios[0]),
        col_rio: Some(ios[1]),
        col_lgt: gt_col_beside(chip.cols_gt@, cfg, true, 0),
        col_rgt: gt_col_beside(chip.cols_gt@, cfg, false, 0),
        col_mgt: None,
    }
}

/// The special columns of a Virtex 4; the chip has a configuration column
/// and exactly two IO columns.
pub fn v4_cols(chip: &Chip) -> (r: DeviceCols)
    requires
        first_col_of_kind(chip.columns@, ColumnKind::Cfg, 0) < chip.columns@.len(),
        kind_cols(chip.columns@, ColumnKind::Io, chip.columns@.len()).len() == 2,
    ensures
        r == spec_v4_cols(*chip),
{
    let cfg = find_first_kind(chip, ColumnKind::Cfg);
    let ios = find_kind_cols(chip, ColumnKind::Io);
    DeviceCols {
        col_cfg: ColId(cfg),
        col_clk: ColId(cfg),
        col_lio: Some(ios[0]),
        col_rio: Some(ios[1]),
        col_lgt: find_gt_beside(chip, cfg, true),
        col_rgt: find_gt_beside(chip, cfg, false),
        col_mgt: None,
    }
}

/// The special columns of a Virtex 5: as on the Virtex 4, but with one or
/// two IO columns.
pub open spec fn spec_v5_cols(chip: Chip) -> DeviceCols {
    let cfg = first_col_of_kind(chip.columns@, ColumnKind::Cfg, 0);
    let ios = kind_cols(chip.columns@, ColumnKind::Io, chip.columns@.len());
    DeviceCols {
        col_cfg: ColId(cfg as usize),
        col_clk: ColId(cfg as usize),
        col_lio: Some(ios[0]),
        col_rio: if ios.len() > 1 { Some(ios[1]) } else { None },
        col_lgt: gt_col_beside(chip.cols_gt@, cfg, true, 0),
        col_rgt: gt_col_beside(chip.cols_gt@, cfg, false, 0),
        col_mgt: None,
    }
}

/// The special columns of a Virtex 5; the chip has a configuration column
/// and one or two IO columns.
pub fn v5_cols(chip: &Chip) -> (r: DeviceCols)
    requires
        first_col_of_kind(chip.columns@, ColumnKind::Cfg, 0) < chip.columns@.len(),
        1 <= kind_cols(chip.columns@, ColumnKind::Io, chip.columns@.len()).len() <= 2,
    ensures
        r == spec_v5_cols(*chip),
{
    let cfg = find_first_kind(chip, ColumnKind::Cfg);
    let ios = find_kind_cols(chip, ColumnKind::Io);
    DeviceCols {
        col_cfg: ColId(cfg),
        col_clk: ColId(cfg),
        col_lio: Some(ios[0]),
        col_rio: if ios.len() > 1 { Some(ios[1]) } else { None },
        col_lgt: find_gt_beside(chip, cfg, true),
        col_rgt: find_gt_beside(chip, cfg, false),
        col_mgt: None,
    }
}

/// The special columns of a Virtex 7 device, taken from its primary chip:
/// the configuration and clock columns, the IO columns west and east of
/// the configuration column, and either the pair of middle transceiver
/// columns (two transceiver columns, the first not at the west edge) or
/// the transceiver columns west and east of the configuration column.
pub open spec fn spec_v7_cols(chip: Chip) -> DeviceCols {
    let cfg = first_col_of_kind(chip.columns@, ColumnKind::Cfg, 0);
    let clk = first_col_of_kind(chip.columns@, ColumnKind::Clk, 0);
    let gts = chip.cols_gt@;
    let mgt = gts.len() == 2 && gts[0].col.0 != 0;
    DeviceCols {
        col_cfg: ColId(cfg as usize),
        col_clk: ColId(clk as usize),
        col_lio: io_col_beside(chip.columns@, cfg, true, 0),
        col_rio: io_col_beside(chip.columns@, cfg, false, 0),
        col_lgt: if mgt { None } else { gt_col_beside(gts, cfg, true, 0) },
        col_rgt: if mgt { None } else { gt_col_beside(gts, cfg, false, 0) },
        col_mgt: if mgt { Some((gts[0].col, gts[1].col)) } else { None },
    }
}

/// The special columns of a Virtex 7 device; its primary chip has a
/// configuration column and a clock column.
pub fn v7_cols(chip: &Chip) -> (r: DeviceCols)
    requires
        first_col_of_kind(chip.columns@, ColumnKind::Cfg, 0) < chip.columns@.len(),
        first_col_of_kind(chip.columns@, ColumnKind::Clk, 0) < chip.columns@.len(),
    ensures
        r == spec_v7_cols(*chip),
{
    let cfg = find_first_kind(chip, ColumnKind::Cfg);
    let clk = find_first_kind(chip, ColumnKind::Clk);
    let mgt = chip.cols_gt.len() == 2 && chip.cols_gt[0].col.0 != 0;
    DeviceCols {
        col_cfg: ColId(cfg),
        col_clk: ColId(clk),
        col_lio: find_io_beside(chip, cfg, true),
        col_rio: find_io_beside(chip, cfg, false),
        col_lgt: if mgt { None } else { find_gt_beside(chip, cfg, true) },
        col_rgt: if mgt { None } else { find_gt_beside(chip, cfg, false) },
        col_mgt: if mgt { Some((chip.cols_gt[0].col, chip.cols_gt[1].col)) } else { None },
    }
}

// ------------------------------------------------------------------------
// configuration IOs

/// An entry of a configuration IO table: the row offset from the table's
/// base row, the IO index within the tile, and the pin.
pub type CfgIoEntry = (usize, usize, SharedCfgPad);

/// The configuration IOs that a table places in a column from a base row.
pub open spec fn cfg_io_of(table: Seq<CfgIoEntry>, die: DieId, col: ColId, base: int) -> Seq<(SharedCfgPad, IoCoord)> {
    table.map_values(
        |t: CfgIoEntry| (t.2, IoCoord { die, col, row: RowId((base + t.0) as usize), iob: TileIobId(t.1) }),
    )
}

/// The configuration IO table of the Virtex 4: the low data pins in the
/// eight rows below the configuration region's bottom minus eight, the high
/// data pins in the eight rows above its bottom plus eight (the base row is
/// sixteen rows below the region's bottom).
pub open spec fn v4_cfg_io_table() -> Seq<CfgIoEntry> {
    Seq::new(16, |i: int| ((i / 2) as usize, (i % 2) as usize, SharedCfgPad::Data(i as u8))) + Seq::new(
        16,
        |i: int| ((24 + i / 2) as usize, (i % 2) as usize, SharedCfgPad::Data((16 + i) as u8)),
    )
}

/// The configuration IO table of the Virtex 5 (the base row is thirty rows
/// below the configuration region's bottom).
pub open spec fn v5_cfg_io_table() -> Seq<CfgIoEntry> {
    seq![
        (6, 0, SharedCfgPad::Data(8)),
        (6, 1, SharedCfgPad::Data(9)),
        (7, 0, SharedCfgPad::Data(10)),
        (7, 1, SharedCfgPad::Data(11)),
        (8, 0, SharedCfgPad::Data(12)),
        (8, 1, SharedCfgPad::Data(13)),
        (9, 0, SharedCfgPad::Data(14)),
        (9, 1, SharedCfgPad::Data(15)),
        (10, 0, SharedCfgPad::Data(0)),
        (10, 1, SharedCfgPad::Data(1)),
        (11, 0, SharedCfgPad::Data(2)),
        (11, 1, SharedCfgPad::Data(3)),
        (12, 0, SharedCfgPad::Data(4)),
        (12, 1, SharedCfgPad::Data(5)),
        (13, 0, SharedCfgPad::Data(6)),
        (13, 1, SharedCfgPad::Data(7)),
        (14, 0, SharedCfgPad::CsoB),
        (14, 1, SharedCfgPad::FweB),
        (15, 0, SharedCfgPad::FoeB),
        (15, 1, SharedCfgPad::FcsB),
        (16, 0, SharedCfgPad::Addr(20)),
        (16, 1, SharedCfgPad::Addr(21)),
        (17, 0, SharedCfgPad::Addr(22)),
        (17, 1, SharedCfgPad::Addr(23)),
        (18, 0, SharedCfgPad::Addr(24)),
        (18, 1, SharedCfgPad::Addr(25)),
        (19, 0, SharedCfgPad::Rs(0)),
        (19, 1, SharedCfgPad::Rs(1)),
        (40, 0, SharedCfgPad::Data(16)),
        (40, 1, SharedCfgPad::Data(17)),
        (41, 0, SharedCfgPad::Data(18)),
        (41, 1, SharedCfgPad::Data(19)),
        (42, 0, SharedCfgPad::Data(20)),
        (42, 1, SharedCfgPad::Data(21)),
        (43, 0, SharedCfgPad::Data(22)),
        (43, 1, SharedCfgPad::Data(23)),
        (44, 0, SharedCfgPad::Data(24)),
        (44, 1, SharedCfgPad::Data(25)),
        (45, 0, SharedCfgPad::Data(26)),
        (45, 1, SharedCfgPad::Data(27)),
        (46, 0, SharedCfgPad::Data(28)),
        (46, 1, SharedCfgPad::Data(29)),
        (47, 0, SharedCfgPad::Data(30)),
        (47, 1, SharedCfgPad::Data(31)),
        (48, 0, SharedCfgPad::Addr(16)),
        (48, 1, SharedCfgPad::Addr(17)),
        (49, 0, SharedCfgPad::Addr(18)),
        (49, 1, SharedCfgPad::Addr(19)),
    ]
}

/// The configuration IO table of the Virtex 7 without a processing system,
/// in the IO column west of the configuration column (the base row is fifty
/// rows below the configuration region's bottom).
pub open spec fn v7_cfg_io_table() -> Seq<CfgIoEntry> {
    seq![
        (1, 0, SharedCfgPad::Data(16)),
        (1, 1, SharedCfgPad::Data(17)),
        (3, 0, SharedCfgPad::Data(18)),
        (3, 1, SharedCfgPad::Data(19)),
        (5, 0, SharedCfgPad::Data(20)),
        (5, 1, SharedCfgPad::Data(21)),
        (7, 0, SharedCfgPad::Data(22)),
        (9, 0, SharedCfgPad::Data(23)),
        (9, 1, SharedCfgPad::Data(24)),
        (11, 0, SharedCfgPad::Data(25)),
        (11, 1, SharedCfgPad::Data(26)),
        (13, 0, SharedCfgPad::Data(27)),
        (13, 1, SharedCfgPad::Data(28)),
        (15, 0, SharedCfgPad::Data(29)),
        (15, 1, SharedCfgPad::Data(30)),
        (17, 0, SharedCfgPad::Data(31)),
        (17, 1, SharedCfgPad::CsiB),
        (19, 0, SharedCfgPad::CsoB),
        (19, 1, SharedCfgPad::RdWrB),
        (29, 0, SharedCfgPad::Data(15)),
        (29, 1, SharedCfgPad::Data(14)),
        (31, 0, SharedCfgPad::Data(13)),
        (33, 0, SharedCfgPad::Data(12)),
        (33, 1, SharedCfgPad::Data(11)),
        (35, 0, SharedCfgPad::Data(10)),
        (35, 1, SharedCfgPad::Data(9)),
        (37, 0, SharedCfgPad::Data(8)),
        (37, 1, SharedCfgPad::FcsB),
        (39, 0, SharedCfgPad::Data(7)),
        (39, 1, SharedCfgPad::Data(6)),
        (41, 0, SharedCfgPad::Data(5)),
        (41, 1, SharedCfgPad::Data(4)),
        (43, 0, SharedCfgPad::EmCclk),
        (43, 1, SharedCfgPad::PudcB),
        (45, 0, SharedCfgPad::Data(3)),
        (45, 1, SharedCfgPad::Data(2)),
        (47, 0, SharedCfgPad::Data(1)),
        (47, 1, SharedCfgPad::Data(0)),
        (51, 0, SharedCfgPad::Rs(0)),
        (51, 1, SharedCfgPad::Rs(1)),
        (53, 0, SharedCfgPad::FweB),
        (53, 1, SharedCfgPad::FoeB),
        (55, 0, SharedCfgPad::Addr(16)),
        (55, 1, SharedCfgPad::Addr(17)),
        (57, 0, SharedCfgPad::Addr(18)),
        (59, 0, SharedCfgPad::Addr(19)),
        (59, 1, SharedCfgPad::Addr(20)),
        (61, 0, SharedCfgPad::Addr(21)),
        (61, 1, SharedCfgPad::Addr(22)),
        (63, 0, SharedCfgPad::Addr(23)),
        (63, 1, SharedCfgPad::Addr(24)),
        (65, 0, SharedCfgPad::Addr(25)),
        (65, 1, SharedCfgPad::Addr(26)),
        (67, 0, SharedCfgPad::Addr(27)),
        (67, 1, SharedCfgPad::Addr(28)),
        (69, 0, SharedCfgPad::AdvB),
    ]
}

/// Places the entries of a configuration IO table.
fn place_cfg_io(table: &Vec<CfgIoEntry>, die: DieId, col: ColId, base: usize) -> (r: Vec<(SharedCfgPad, IoCoord)>)
    requires
        forall|k: int| 0 <= k < table@.len() ==> base + (#[trigger] table@[k]).0 <= usize::MAX,
    ensures
        r@ == cfg_io_of(table@, die, col, base as int),
{
    let mut r: Vec<(SharedCfgPad, IoCoord)> = Vec::new();
    let mut k: usize = 0;
    while k < table.len()
        invariant
            k <= table@.len(),
            forall|j: int| 0 <= j < table@.len() ==> base + (#[trigger] table@[j]).0 <= usize::MAX,
            r@ == cfg_io_of(table@.take(k as int), die, col, base as int),
        decreases table@.len() - k,
    {
        let (dy, iob, pin) = table[k];
        assert(base + table@[k as int].0 <= usize::MAX);
        r.push((pin, IoCoord { die, col, row: RowId(base + dy), iob: TileIobId(iob) }));
        k = k + 1;
        assert(r@ =~= cfg_io_of(table@.take(k as int), die, col, base as int));
    }
    assert(table@.take(table@.len() as int) =~= table@);
    r
}

/// The configuration IOs of a Virtex 4, in the configuration column.
pub fn v4_cfg_io(chip: &Chip, col_cfg: ColId) -> (r: Vec<(SharedCfgPad, IoCoord)>)
    requires
        16 <= chip.sp_row_reg_bot(chip.reg_cfg.0 as int),
        chip.sp_row_reg_bot(chip.reg_cfg.0 as int) + 16 <= usize::MAX,
    ensures
        r@ == cfg_io_of(v4_cfg_io_table(), DieId(0), col_cfg, chip.sp_row_reg_bot(chip.reg_cfg.0 as int) - 16),
{
    let bot = chip.row_reg_bot(chip.reg_cfg).0;
    let mut table: Vec<CfgIoEntry> = Vec::new();
    let mut i: usize = 0;
    while i < 16
        invariant
            i <= 16,
            table@ == v4_cfg_io_table().take(i as int),
        decreases 16 - i,
    {
        table.push((i / 2, i % 2, SharedCfgPad::Data(i as u8)));
        i = i + 1;
        assert(table@ =~= v4_cfg_io_table().take(i as int));
    }
    let mut i: usize = 0;
    while i < 16
        invariant
            i <= 16,
            table@ == v4_cfg_io_table().take(16 + i),
        decreases 16 - i,
    {
        table.push((24 + i / 2, i % 2, SharedCfgPad::Data(16 + i as u8)));
        i = i + 1;
        assert(table@ =~= v4_cfg_io_table().take(16 + i));
    }
    assert(table@ =~= v4_cfg_io_table());
    place_cfg_io(&table, DieId(0), col_cfg, bot - 16)
}

/// The configuration IOs of a Virtex 5, in the configuration column.
pub fn v5_cfg_io(chip: &Chip, col_cfg: ColId) -> (r: Vec<(SharedCfgPad, IoCoord)>)
    requires
        30 <= chip.sp_row_reg_bot(chip.reg_cfg.0 as int),
        chip.sp_row_reg_bot(chip.reg_cfg.0 as int) + 20 <= usize::MAX,
    ensures
        r@ == cfg_io_of(v5_cfg_io_table(), DieId(0), col_cfg, chip.sp_row_reg_bot(chip.reg_cfg.0 as int) - 30),
{
    let bot = chip.row_reg_bot(chip.reg_cfg).0;
    let table: Vec<CfgIoEntry> = vec![
        (6, 0, SharedCfgPad::Data(8)),
        (6, 1, SharedCfgPad::Data(9)),
        (7, 0, SharedCfgPad::Data(10)),
        (7, 1, SharedCfgPad::Data(11)),
        (8, 0, SharedCfgPad::Data(12)),
        (8, 1, SharedCfgPad::Data(13)),
        (9, 0, SharedCfgPad::Data(14)),
        (9, 1, SharedCfgPad::Data(15)),
        (10, 0, SharedCfgPad::Data(0)),
        (10, 1, SharedCfgPad::Data(1)),
        (11, 0, SharedCfgPad::Data(2)),
        (11, 1, SharedCfgPad::Data(3)),
        (12, 0, SharedCfgPad::Data(4)),
        (12, 1, SharedCfgPad::Data(5)),
        (13, 0, SharedCfgPad::Data(6)),
        (13, 1, SharedCfgPad::Data(7)),
        (14, 0, SharedCfgPad::CsoB),
        (14, 1, SharedCfgPad::FweB),
        (15, 0, SharedCfgPad::FoeB),
        (15, 1, SharedCfgPad::FcsB),
        (16, 0, SharedCfgPad::Addr(20)),
        (16, 1, SharedCfgPad::Addr(21)),
        (17, 0, SharedCfgPad::Addr(22)),
        (17, 1, SharedCfgPad::Addr(23)),
        (18, 0, SharedCfgPad::Addr(24)),
        (18, 1, SharedCfgPad::Addr(25)),
        (19, 0, SharedCfgPad::Rs(0)),
        (19, 1, SharedCfgPad::Rs(1)),
        (40, 0, SharedCfgPad::Data(16)),
        (40, 1, SharedCfgPad::Data(17)),
        (41, 0, SharedCfgPad::Data(18)),
        (41, 1, SharedCfgPad::Data(19)),
        (42, 0, SharedCfgPad::Data(20)),
        (42, 1, SharedCfgPad::Data(21)),
        (43, 0, SharedCfgPad::Data(22)),
        (43, 1, SharedCfgPad::Data(23)),
        (44, 0, SharedCfgPad::Data(24)),
        (44, 1, SharedCfgPad::Data(25)),
        (45, 0, SharedCfgPad::Data(26)),
        (45, 1, SharedCfgPad::Data(27)),
        (46, 0, SharedCfgPad::Data(28)),
        (46, 1, SharedCfgPad::Data(29)),
        (47, 0, SharedCfgPad::Data(30)),
        (47, 1, SharedCfgPad::Data(31)),
        (48, 0, SharedCfgPad::Addr(16)),
        (48, 1, SharedCfgPad::Addr(17)),
        (49, 0, SharedCfgPad::Addr(18)),
        (49, 1, SharedCfgPad::Addr(19)),
    ];
    assert(table@ =~= v5_cfg_io_table());
    place_cfg_io(&table, DieId(0), col_cfg, bot - 30)
}

/// The configuration IOs of a Virtex 7 device, on its primary die: with a
/// processing system only `PUDC_B`, in the IO column east of the
/// configuration column; otherwise the table, in the IO column west of it.
pub open spec fn spec_v7_cfg_io(chip: Chip, primary: DieId, col_lio: Option<ColId>, col_rio: Option<ColId>) -> Seq<
    (SharedCfgPad, IoCoord),
> {
    let base = chip.sp_row_reg_bot(chip.reg_cfg.0 as int) - 50;
    if chip.has_ps {
        cfg_io_of(seq![(43usize, 1usize, SharedCfgPad::PudcB)], primary, col_rio.unwrap(), base)
    } else {
        cfg_io_of(v7_cfg_io_table(), primary, col_lio.unwrap(), base)
    }
}

/// The configuration IOs of a Virtex 7 device.
pub fn v7_cfg_io(chip: &Chip, primary: DieId, col_lio: Option<ColId>, col_rio: Option<ColId>) -> (r: Vec<
    (SharedCfgPad, IoCoord),
>)
    requires
        50 <= chip.sp_row_reg_bot(chip.reg_cfg.0 as int),
        chip.sp_row_reg_bot(chip.reg_cfg.0 as int) + 20 <= usize::MAX,
        chip.has_ps ==> col_rio is Some,
        !chip.has_ps ==> col_lio is Some,
    ensures
        r@ == spec_v7_cfg_io(*chip, primary, col_lio, col_rio),
{
    let bot = chip.row_reg_bot(chip.reg_cfg).0;
    if chip.has_ps {
        let table: Vec<CfgIoEntry> = vec![(43, 1, SharedCfgPad::PudcB)];
        let col = match col_rio {
            Some(c) => c,
            None => ColId(0),
        };
        place_cfg_io(&table, primary, col, bot - 50)
    } else {
        let table: Vec<CfgIoEntry> = vec![
            (1, 0, SharedCfgPad::Data(16)),
            (1, 1, SharedCfgPad::Data(17)),
            (3, 0, SharedCfgPad::Data(18)),
            (3, 1, SharedCfgPad::Data(19)),
            (5, 0, SharedCfgPad::Data(20)),
            (5, 1, SharedCfgPad::Data(21)),
            (7, 0, SharedCfgPad::Data(22)),
            (9, 0, SharedCfgPad::Data(23)),
            (9, 1, SharedCfgPad::Data(24)),
            (11, 0, SharedCfgPad::Data(25)),
            (11, 1, SharedCfgPad::Data(26)),
            (13, 0, SharedCfgPad::Data(27)),
            (13, 1, SharedCfgPad::Data(28)),
            (15, 0, SharedCfgPad::Data(29)),
            (15, 1, SharedCfgPad::Data(30)),
            (17, 0, SharedCfgPad::Data(31)),
            (17, 1, SharedCfgPad::CsiB),
            (19, 0, SharedCfgPad::CsoB),
            (19, 1, SharedCfgPad::RdWrB),
            (29, 0, SharedCfgPad::Data(15)),
            (29, 1, SharedCfgPad::Data(14)),
            (31, 0, SharedCfgPad::Data(13)),
            (33, 0, SharedCfgPad::Data(12)),
            (33, 1, SharedCfgPad::Data(11)),
            (35, 0, SharedCfgPad::Data(10)),
            (35, 1, SharedCfgPad::Data(9)),
            (37, 0, SharedCfgPad::Data(8)),
            (37, 1, SharedCfgPad::FcsB),
            (39, 0, SharedCfgPad::Data(7)),
            (39, 1, SharedCfgPad::Data(6)),
            (41, 0, SharedCfgPad::Data(5)),
            (41, 1, SharedCfgPad::Data(4)),
            (43, 0, SharedCfgPad::EmCclk),
            (43, 1, SharedCfgPad::PudcB),
            (45, 0, SharedCfgPad::Data(3)),
            (45, 1, SharedCfgPad::Data(2)),
            (47, 0, SharedCfgPad::Data(1)),
            (47, 1, SharedCfgPad::Data(0)),
            (51, 0, SharedCfgPad::Rs(0)),
            (51, 1, SharedCfgPad::Rs(1)),
            (53, 0, SharedCfgPad::FweB),
            (53, 1, SharedCfgPad::FoeB),
            (55, 0, SharedCfgPad::Addr(16)),
            (55, 1, SharedCfgPad::Addr(17)),
            (57, 0, SharedCfgPad::Addr(18)),
            (59, 0, SharedCfgPad::Addr(19)),
            (59, 1, SharedCfgPad::Addr(20)),
            (61, 0, SharedCfgPad::Addr(21)),
            (61, 1, SharedCfgPad::Addr(22)),
            (63, 0, SharedCfgPad::Addr(23)),
            (63, 1, SharedCfgPad::Addr(24)),
            (65, 0, SharedCfgPad::Addr(25)),
            (65, 1, SharedCfgPad::Addr(26)),
            (67, 0, SharedCfgPad::Addr(27)),
            (67, 1, SharedCfgPad::Addr(28)),
            (69, 0, SharedCfgPad::AdvB),
        ];
        assert(table@ =~= v7_cfg_io_table());
        let col = match col_lio {
            Some(c) => c,
            None => ColId(0),
        };
        place_cfg_io(&table, primary, col, bot - 50)
    }
}

// ------------------------------------------------------------------------
// banks and die order of a Virtex 7 device

/// The number of regions of the first `n` dies.
pub open spec fn regs_before(chips: Seq<Chip>, n: nat) -> nat
    decreases n,
{
    if n == 0 {
        0
    } else {
        (regs_before(chips, (n - 1) as nat) + chips[n - 1].regs) as nat
    }
}

proof fn lemma_regs_before_mono(chips: Seq<Chip>, a: nat, b: nat)
    requires
        a <= b,
    ensures
        regs_before(chips, a) <= regs_before(chips, b),
    decreases b - a,
{
    if a < b {
        lemma_regs_before_mono(chips, a, (b - 1) as nat);
    }
}

/// The bank base of die `d` of a Virtex 7 device: the regions of the dies
/// are numbered consecutively from the south, the primary die's first
/// region being 15.
pub open spec fn spec_banklut(chips: Seq<Chip>, primary: nat, d: int) -> u32 {
    (15 + regs_before(chips, d as nat) - regs_before(chips, primary)) as u32
}

/// The banks of a Virtex 7 device are numbered consecutively across its
/// dies: the primary die's first region is bank 15, and each die's first
/// bank follows the last bank of the die below it.
pub proof fn lemma_banks_consecutive(chips: Seq<Chip>, primary: nat)
    requires
        primary < chips.len(),
        regs_before(chips, primary) <= 15,
        15 + regs_before(chips, chips.len()) <= u32::MAX,
    ensures
        spec_banklut(chips, primary, primary as int) == 15,
        forall|d: int|
            0 <= d < chips.len() - 1 ==> #[trigger] spec_banklut(chips, primary, d + 1) == spec_banklut(chips, primary, d)
                + chips[d].regs,
{
    assert forall|d: int| 0 <= d < chips.len() - 1 implies #[trigger] spec_banklut(chips, primary, d + 1)
        == spec_banklut(chips, primary, d) + chips[d].regs by {
        lemma_regs_before_mono(chips, (d + 1) as nat, chips.len());
        assert(regs_before(chips, (d + 1) as nat) == regs_before(chips, d as nat) + chips[d].regs);
    }
}

/// The bank base of each die of a Virtex 7 device: the primary die's
/// regions start at bank 15, the other dies' regions continue the
/// numbering south and north of it.
pub fn v7_banklut(chips: &Vec<Chip>, primary: usize) -> (r: Vec<u32>)
    requires
        primary <= chips@.len(),
        regs_before(chips@, primary as nat) <= 15,
        15 + regs_before(chips@, chips@.len()) <= u32::MAX,
    ensures
        r@.len() == chips@.len(),
        forall|d: int| 0 <= d < chips@.len() ==> #[trigger] r@[d] == spec_banklut(chips@, primary as nat, d),
{
    let mut before: usize = 0;
    let mut i: usize = 0;
    while i < primary
        invariant
            i <= primary <= chips@.len(),
            before == regs_before(chips@, i as nat),
            regs_before(chips@, primary as nat) <= 15,
        decreases primary - i,
    {
        proof {
            lemma_regs_before_mono(chips@, (i + 1) as nat, primary as nat);
        }
        before = before + chips[i].regs;
        i = i + 1;
    }
    let mut bank: u32 = (15 - before) as u32;
    let mut r: Vec<u32> = Vec::new();
    let mut d: usize = 0;
    while d < chips.len()
        invariant
            d <= chips@.len(),
            before == regs_before(chips@, primary as nat),
            before <= 15,
            15 + regs_before(chips@, chips@.len()) <= u32::MAX,
            bank == 15 + regs_before(chips@, d as nat) - before,
            r@.len() == d,
            forall|j: int| 0 <= j < d ==> #[trigger] r@[j] == spec_banklut(chips@, primary as nat, j),
        decreases chips@.len() - d,
    {
        r.push(bank);
        proof {
            lemma_regs_before_mono(chips@, (d + 1) as nat, chips@.len());
        }
        bank = bank + chips[d].regs as u32;
        d = d + 1;
    }
    r
}

/// The order of the dies in the bitstream: the primary die, then the other
/// dies from the south.
pub open spec fn spec_die_order(n: nat, primary: nat) -> Seq<DieId> {
    seq![DieId(primary as usize)] + Seq::new(n, |d: int| DieId(d as usize)).filter(|x: DieId| x.0 != primary)
}

/// The order of the dies of a device of `n` dies in the bitstream.
pub fn die_order(n: usize, primary: usize) -> (r: Vec<DieId>)
    ensures
        r@ == spec_die_order(n as nat, primary as nat),
{
    let mut r: Vec<DieId> = Vec::new();
    r.push(DieId(primary));
    let ghost all = Seq::new(n as nat, |d: int| DieId(d as usize));
    let ghost pred = |x: DieId| x.0 != primary;
    let mut d: usize = 0;
    while d < n
        invariant
            d <= n,
            all == Seq::new(n as nat, |d: int| DieId(d as usize)),
            pred == (|x: DieId| x.0 != primary),
            r@ == seq![DieId(primary)] + all.take(d as int).filter(pred),
        decreases n - d,
    {
        proof {
            assert(all.take(d + 1).drop_last() =~= all.take(d as int));
            reveal_with_fuel(Seq::filter, 1);
        }
        if d != primary {
            r.push(DieId(d));
        }
        d = d + 1;
        assert(r@ =~= seq![DieId(primary)] + all.take(d as int).filter(pred));
    }
    assert(all.take(n as int) =~= all);
    r
}

/// The dies below `n` without die `p`, in order: those below `p`, then
/// those above it.
pub open spec fn dies_without(n: nat, p: nat) -> Seq<DieId> {
    Seq::new(if n <= p { n } else { (n - 1) as nat }, |k: int| DieId((if k < p { k } else { k + 1 }) as usize))
}

proof fn lemma_filter_dies(n: nat, p: nat)
    requires
        n <= usize::MAX,
    ensures
        Seq::new(n, |d: int| DieId(d as usize)).filter(|x: DieId| x.0 != p) == dies_without(n, p),
    decreases n,
{
    let all = Seq::new(n, |d: int| DieId(d as usize));
    let pred = |x: DieId| x.0 != p;
    reveal_with_fuel(Seq::filter, 1);
    if n > 0 {
        let m = (n - 1) as nat;
        lemma_filter_dies(m, p);
        assert(all.drop_last() =~= Seq::new(m, |d: int| DieId(d as usize)));
        if m != p {
            assert(dies_without(m, p).push(DieId(m as usize)) =~= dies_without(n, p));
        } else {
            assert(dies_without(m, p) =~= dies_without(n, p));
        }
    } else {
        assert(all.filter(pred) =~= dies_without(n, p));
    }
}

/// The bitstream order of the dies lists each die of the device once, the
/// primary die first.
pub proof fn lemma_die_order_permutation(n: nat, primary: nat)
    requires
        primary < n <= usize::MAX,
    ensures
        spec_die_order(n, primary).len() == n,
        spec_die_order(n, primary)[0] == DieId(primary as usize),
        forall|k: int| 0 <= k < n ==> (#[trigger] spec_die_order(n, primary)[k]).0 < n,
        forall|d: int| 0 <= d < n ==> #[trigger] spec_die_order(n, primary).contains(DieId(d as usize)),
        forall|i: int, j: int|
            0 <= i < j < n ==> #[trigger] spec_die_order(n, primary)[i] != #[trigger] spec_die_order(n, primary)[j],
{
    lemma_filter_dies(n, primary);
    let o = spec_die_order(n, primary);
    assert(o =~= seq![DieId(primary as usize)] + dies_without(n, primary));
    assert forall|d: int| 0 <= d < n implies #[trigger] o.contains(DieId(d as usize)) by {
        if d == primary {
            assert(o[0] == DieId(d as usize));
        } else if d < primary {
            assert(o[d + 1] == DieId(d as usize));
        } else {
            assert(o[d] == DieId(d as usize));
        }
    }
}

} // verus!
