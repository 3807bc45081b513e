# Qdrant Edge Sync

Brings every shard of a collection from a Qdrant server down to local Edge
Shards. The decisions are in a library that Verus verifies; the window, the
network and the files are in an application around it.

- `src/text.rs`: decimal numbers, trimming, joining
- `src/http.rs`: requests to the server, and the words for those that fail
- `src/json.rs`: the parts of `serde_json` that are relied upon
- `src/cluster.rs`: finding out which shards the server holds
- `src/download.rs`: downloading the snapshot of a shard
- `src/shard.rs`: the directory of a shard, and unpacking its snapshot
- `src/sync.rs`: going through all shards of a collection
- `src/ui.rs`: the state of the window
- `src/verify.rs`: the query that looks into a synced shard
- `app/`: the iced window, downloads, files, and Edge Shards on disk

## Building the application

- `Cargo.toml` does not list `qdrant-edge`, which only `app/` uses: add it to the
  dependencies before you build `app/`. `app/` is written for version 0.9, which
  needs a compiler that has `assert_matches` as a stable feature.
- `image`, with its PNG decoder only, decodes the window icon. The `image` feature
  of iced would do so too, but brings every image format along.
- The font `assets/fonts/MonaSans-Regular.ttf` and the icon `assets/qdrant.png`
  are read at run time from the directory of the program. Without them the window
  opens with a default font and without an icon.

Run the application without arguments for the window, or with `verify_edge`
followed by a directory, a vector name and the components of a query.
