# retouch_lab

A photo-retouching toolkit with a formally verified core, written in Verus.

- `src/` is the verified library: the catalogue of retouch strategies and
  their sliders (`catalog`), parameter maps (`params`), the choice of
  adjustments for a strategy (`plan`), an RGB raster with per-pixel
  transforms (`pixels`), YCbCr skin detection (`skin`), colour-cluster
  bookkeeping (`clusters`), the subject tile grid (`tiles`), ordering helpers
  (`order`), output file names (`naming`) and the request and response types
  (`request`).
- `app/` holds what the verifier does not see: the commands of the desktop
  shell, image decoding and encoding with the `image` crate, files and the
  clock, and the single-precision colour arithmetic of each adjustment.
- `tests/` runs the library on concrete values, including an exhaustive
  comparison of the skin test with its single-precision evaluation.
- `extras/skin_edge_colours.py` derives the table of colours at which the
  single-precision skin test lands on the other side of a threshold.

Slider values are held in hundredths (`72` is `0.72`); the shell turns them
into single-precision values by dividing by 100.
