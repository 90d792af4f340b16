# birber

The verified core of Birber, a desktop photo library for camera shots
(`DSC_xxxx.NEF` raws with their camera JPGs).

- `src/` is the library, verified with Verus: decimal text of numbers,
  query rows (`TextMap`, `db_schema`), the raw and photo records and the
  paths of their previews and thumbnails, the grouping of camera files found
  by a sync, the converter's command line, the photo date read from EXIF
  (through `kamadak-exif`), and the encoding of thumbnails and renders through
  the `image` and `jpeg-decoder` crates.
- `app/` is the Tauri application around it: the commands, the SQLite
  connection, the directory scan, reading and writing files, the raw
  converter process and the floating-point render pipeline.
- `tests/` runs the library on concrete values.
