# fornax

Bilinear demosaicing of Bayer mosaics, verified with Verus.

- `src/primitive.rs`: `FornaxPrimitive`, the channel types (`u8`, `u16`) and
  the arithmetic the interpolation needs, stated over the numbers they hold.
- `src/bayer.rs`: Bayer patterns and channels, the single-channel `Mosaic`,
  `BayerImage` and the three-channel `RgbImage`.
- `src/demosaic.rs`: the model of linear interpolation (stencils, their sums,
  counts and means) and `DemosaicLinear`, whose `demosaic` is proved to
  compute it exactly; `can_demosaic` decides when no sum overflows and no
  mean is taken over an empty stencil.
- `src/dalim.rs`: the post-processor `Dalim` and its parameters.
- `src/dcraw.rs`: the dcraw settings, how they are written into libraw's
  settings, and the cg preset.
- `src/laws.rs`: properties of the library as a whole (samples kept, range
  and flat fields preserved, red/blue exchange, rows, patterns, settings).
- `app/`: conversions from and to `image` buffers, a row-parallel driver on
  rayon, serde copies of the parameters, floating-point settings and
  channels, and C strings for libraw.
