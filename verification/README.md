# ablavema

The core of a launcher and version manager for Blender, written in Verus:
every function of the library under `src/` carries a contract, and Verus
proves each one, except the small wrappers marked
`#[verifier::external_body]` that call `versions`, `chrono`, `regex`,
`timeago`, `select` and `char::is_numeric`. Their contracts are trusted,
not proved; each one's doc comment says what it claims of the call.

- `package`, `sorting`: what a package is, how packages are compared and
  ordered, and how lists of them are sorted.
- `releases`: the release lists (daily, experimental and patch builds,
  stable and long-term support releases), finding new packages, marking
  installed packages and updates, merging all lists into one; the pages of
  the build server (`builder`), of the release mirror (`stable_archive`),
  of the download page (`stable_latest`) and of the long-term support
  series (`lts`); the installed packages (`installed`).
- `gui`: the launcher's window as a state machine (`message`), what each
  package does when acted on (`package`), the installation steps
  (`install`), filters, sorting, the tabs (which packages the packages tab
  shows and in what order, which buttons act), recent files and the colour
  themes.
- `settings`, `launch`, `helpers`, `self_updater`: settings and the rules
  that change them, where the settings file lives (portable mode, the
  `ABLAVEMA_CONFIG_FILE` variable, the configuration directory), what
  happens at launch, and the launcher's own releases.
- `text`, `paths`: text operations, and file names taken from paths by the
  rules of Unix paths.
- `version`, `dates`: the calls into `versions`, `chrono`, `regex` and
  `timeago`.
- `laws`: properties that span calls and states.

`app/` reads and writes the files, talks to the servers, unpacks archives
and starts Blender, handing plain values to the library.
