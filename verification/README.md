# jgdtrans

Coordinate transformation by the Gridded Correction Parameter of the
Geospatial Information Authority of Japan, with its mesh arithmetic
verified in Verus.

- `src/` is the verified library:
  - `mesh/unit.rs`: `MeshUnit`, the 1 km and 5 km meshes;
  - `mesh/coord.rs`: `MeshCoord`, a digit triplet along one axis, with its
    neighbours up and down (`next_up`, `next_down`);
  - `mesh/node.rs`: `MeshNode`, a latitude and a longitude coordinate, its
    8-digit meshcode and its neighbours; the meshcode round trip is proved
    both ways (`lemma_meshcode_roundtrip`, `lemma_from_meshcode_roundtrip`);
  - `mesh/cell.rs`: `MeshCell`, a unit cell of four nodes, determined by
    its south-west node and its unit;
  - `trans.rs`: the transformation errors and `Params::new`, the lookup of
    the parameters at the four corners of a cell.
- `app/` holds what is floating point: points, degrees of mesh values,
  positions in a cell, bilinear interpolation and the forward and backward
  transformations; and the serde and `Display` forms of the library's types.
- `tests/` runs the library on concrete values.
