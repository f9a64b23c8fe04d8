# prjcombine

Geometry and packaging database for Xilinx FPGAs, verified with Verus: the
XC2000, XC3000, XC4000 and XC5200 families and the Virtex 4 to Virtex 7
families.

## Layout

- `src/grid.rs`: die, column and row identifiers, edge IOs, rectangles.
- `src/bitstream.rs`: frame addresses and frame descriptions.
- `src/seqs.rs`, `src/text.rs`: sequence lemmas, decimal text and the sort
  order of numbered pin names.
- `src/tile.rs`: tiles, span tiles, terminators and connections of an
  interconnect grid.
- `src/xc2000/`: chips, bels, bonds, boundary scan, the text dump, the
  frame layout and the tile grid of the XC2000 .. XC5200 families.
- `src/virtex4/`: chips, bonds, GTZ database, frame tables, IO and
  transceiver information, bit tiles, site lists, device tables and the
  interconnect grids (`grid_v4`, `grid_v5`, `grid_v7`: tiles, terminators,
  clock breaks, main passes, wires between dies) of the Virtex 4 ..
  Virtex 7 families, and `expand`, which puts them together into the
  expanded device.  Virtex 6 chips are described (geometry, frames, IO
  information, bonds), but `expand` builds expanded devices for the
  Virtex 4, Virtex 5 and Virtex 7 families only: there is no Virtex 6
  interconnect grid here.
- `tests/`: tests on concrete chips.
- `app/`: writers, `Display` forms and JSON output around the library.

Chips, bonds and the GTZ database keep their lists as `Vec`s whose order
and uniqueness are stated by spec predicates (`xc2000::chip::Chip::collections_ok`,
`Bond::pins_ascending`, `GtzDb::names_distinct`); each has a verified
check (`check_collections`, `check_pins_ascending`, `check_names_distinct`)
that tells a caller whether a value meets it.

Every function under `src/` carries a contract over spec functions and is
proved by Verus; `text::sorted_indices_by_key` is the one trusted wrapper,
around `itertools::Itertools::sorted_by_key`.
