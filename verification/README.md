# taimi_hud

The runtime core of the TaimiHUD Guild Wars 2 addon, written in Verus: the
decisions the addon takes when its hosts (ArcDPS, Nexus) load, query and
unload it, how it formats its log lines for them, how it resolves its addon
directory and language, and how it decides about updates.

- `src/` is the verified library. Every public function states what it
  returns or changes; the laws the library keeps (such as that loading
  happens once, or that the release picked as the newest orders no earlier
  than any other candidate when all candidates carry versions or none do)
  are stated in those contracts or as proof functions beside the code.
  - `built_info.rs`: the git ref and release status of a build.
  - `text.rs`: character-sequence helpers (prefixes, splitting, decimal
    numbers, lexicographic order).
  - `exports/arcdps.rs`: the ArcDPS host: lifecycle flags, language, addon
    directory, log window routing, update URL.
  - `exports/runtime/`: host-independent services; `log.rs` formats and routes
    log records, `update.rs` resolves releases and update preferences,
    `version.rs` wraps the `semver` crate.
- `app/` is the glue that Verus does not see: build-environment constants,
  process-wide state, the `log` facade, and the loops that drive the library
  around calls to the hosts.
- `tests/` exercise the library on concrete values.

Calls into `semver`, `url`, `unic-langid-impl` and `rand` are made through
small trusted functions whose contracts restate what those crates document.
