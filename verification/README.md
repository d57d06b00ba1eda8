# geographiclib

Geocentric, local cartesian and transverse Mercator conversions.

- `src/` is the verified library. It holds what of these conversions is exact:
  the layout of the packed Krüger series tables (`krueger`), the folding of a
  transverse Mercator point into the first quadrant (`quadrant`), and the
  choice of method in the reverse geocentric transform (`geocentric_reverse`).
- `app/` holds the conversions themselves, which compute in floating point,
  and builds them on the library.
- `tests/` exercises the library.
