# lang_changer

The verified core of a language picker for Arch-based XFCE desktops.

- `src/text.rs`: character-level specifications of trimming, line
  splitting, prefix and substring tests and lexicographic order, with
  verified implementations.
- `src/names.rs`: native language names, country names, and the label of a
  locale such as `English (United States)  —  en_US.UTF-8`.
- `src/locales.rs`: the list of locales offered for the output of
  `locale -a` (sorted, labelled) and the search over it.
- `src/translit.rs`: Latin spelling of Cyrillic (Serbian, Russian, Ukrainian letters), used by the search.
- `src/config.rs`: reading the current locale from `locale.conf`, and the
  texts written to `locale.conf`, the session environment file and
  `~/.xprofile`, with proofs that each reads back the locale written.
- `src/guard.rs`: the sessions on which the picker refuses to run.
- `src/country_data.rs`: localised country names read from a JSON table.
- `app/`: the FLTK window and the file, environment and process I/O.
