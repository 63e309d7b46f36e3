# tpsecore

The import logic of TETR.IO PLUS content (`tpse` files), written in Verus with its
behaviour stated in contracts and proved.

An import takes files (loose, or inside zip archives), decides what each file is,
partitions them by the `pack.json` files of content packs into decision trees, takes
decisions, settles the remaining weak guesses by looking at the other files of the
same directory, collates the files into import tasks and stores the results in a TPSE.

## Layout

- `src/` is the verified library.
  - `import_types`, `filekey`, `names`: the import types, their file keys (parsed out of
    file names, longest key first) and their descriptions.
  - `guess`, `decide`, `radiance`: guessing textures by their dimensions, deciding a
    file's type, and parsing the base game's sound definition.
  - `explore`, `path_order`: deciding the types of a list of files, opening zip
    archives, and sorting the files by path, component by component.
  - `packjson`, `glob`, `partition`, `decision`: pack.json files, partitioning files into
    decision trees, and taking decisions.
  - `inter_stage`, `reduce`: the data passed between stages, and type reduction with its
    directory heuristics (sound effects, board/queue/grid, minos/ghost) and collation.
  - `execute`, `sfx`, `tpse`, `mime`: laying out animation frames on a sheet, grouping
    archive entries by folder, storing content in a TPSE, matching custom sound effects
    to sprites, and the mime types of imported files.
  - `skin_maps`: where each piece lies in each skin format's texture, as exact
    fractions, and the connection maps of connected blocks.
  - `accel`, `assets`, `context`, `splicer`: the texture command buffer, base game
    assets, the import context and its entries, pieces and connection maps.
  - `text`, `paths`, `pattern`: character helpers, and the calls into std's paths and
    the `regex` crate behind stated contracts.
- `tests/` runs the library on concrete values.
- `app/` holds what the library leaves to its caller: the import loop, which hands
  measuring, decoding, cutting and encoding media to its caller, floating point
  measurements, serialized forms of pack.json files, and error messages with the
  context an import failed in.
