# zarrs_jpeg

The [`jpeg`](https://github.com/zarr-developers/zarr-extensions/pull/66) codec for
[`zarrs`](https://zarrs.dev), as a Verus-verified library.

- `src/` is the verified library: the codec configuration (quality, color
  spaces, chroma subsampling) and its stored form, the libjpeg-turbo settings
  derived from a configuration, the checks of pixel data and decoded shapes,
  and the decisions on Zarr chunk shapes and data types. Each public function
  states its result in its contract; the laws that span functions (the stored
  form of a configuration is read back unchanged, the MCU follows the
  subsampling, a chunk holds exactly the pixel bytes the encoder accepts) are
  proof functions.
- `app/` performs the calls into libjpeg-turbo, (de)serialises configurations
  with serde, and registers the codec with zarrs.

JPEGs are encoded in Minimum Coded Units whose size depends on the chroma
subsampling (8 or 16 pixels, possibly 32); the first two dimensions of a chunk
shape should be multiples of the codec's `mcu_shape`.
