# keympostor

A keyboard remapper for Windows: a low-level keyboard hook replaces each keystroke that a
rule of the active profile matches with the keystrokes of that rule.

The library (`src/`) is written in Verus; each function carries a contract, and the laws of
the library are proof functions.

- `keyboard::key`, `keyboard::key_const`: the key table (names, virtual key codes, scan codes)
  and lookups by name and by key; `law_key_table_round_trip`.
- `keyboard::key_modifiers`, `key_action`, `key_trigger`, `transform_rules`: modifiers,
  actions, sequences, triggers, rules, lists of rules and profiles, with their text forms.
- `keyboard::parse`: reading the text forms (`A↓`, `[LEFT_SHIFT] A* : B↓ → B↑`, ...), each
  reader specified by a spec function, refusals with their error texts; `keyboard::round_trip` proves that written texts read
  back, and `keyboard::parsed_keys` that what is read can always be written.
- `keyboard::serialize`: rules as pairs of texts, the form of the profile files.
- `keyboard::transform_map`, `transform_matrix`: the lookup of the rule for a keystroke
  (exact modifiers first, then any modifiers); `law_lookup_after_put`, and
  `law_lookup_last_rule` for a whole list of rules put in order.
- `keyboard::key_event`, `key_hook`: keystrokes as the hook reports them, and the hook's
  decision for each (`law_hook_replies`).
- `profile`, `config`: profiles and settings.
- `ui`: layouts (lookup, cycling, sorting), profiles with their activation pattern and the
  search for the profile that the window in front activates (by its title or program path),
  keyboard lighting colors and their `#RRGGBB` texts (`law_zone_colors_round_trip`), lock keys, the bounded log of
  keystrokes, the watch of the window in front (`law_watch_reports`).
- `text`: the character-level text functions (trim, split, join) with their models.

`app/` holds the program around the library: reading and writing TOML files, the Windows
hook and message loop, and the window watch thread.
