# dprint-cmakefmt

A [dprint](https://dprint.dev) plugin that formats `CMakeLists.txt`,
`CMakeLists.txt.in` and `*.cmake` files with
[cmakefmt](https://github.com/cmakefmt/cmakefmt), with its logic verified by
[Verus](https://github.com/verus-lang/verus).

Options go under the `cmakefmt` key of dprint's configuration, in camelCase.
dprint's global `lineWidth`, `indentWidth`, `useTabs` and `newLineKind` apply
when the plugin's option of the same name is not set; the plugin's option wins
when both are. `maxHangingWrapGroups` defaults to 2; every other option
defaults to cmakefmt's own default. Range formatting is not supported, and
cmakefmt's own config files are not read.

## Layout

- `src/` — the verified library:
  - `settings.rs`: the resolved configuration, cmakefmt's defaults, and the
    parsers for the word-valued options;
  - `options.rs`: reading options out of dprint's configuration map;
  - `resolve.rs`: resolving a configuration, and its specification;
  - `format.rs`: formatting a file, and its specification;
  - `plugin.rs`: the plugin's description and license;
  - `laws.rs`: properties proved for all inputs;
  - `foreign.rs`: the cmakefmt and dprint-core types that signatures carry.
- `app/` — the dprint plugin interface (`SyncPluginHandler`) and the Wasm entry
  point, converting between dprint's types and the library's.
- `tests/` — tests of the library, run with the real cmakefmt and dprint-core.
