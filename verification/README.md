# PKGBUILD Manager

Tools for Arch Linux package maintainers: `makepkg` wrappers, checksum and
`.SRCINFO` updates, namcap and ShellCheck audits, cleaning, and publishing to
the AUR and to GitHub, GitLab, Codeberg or any git remote.

The library (`src/`) is verified with Verus. It holds the decisions of every
action and their proofs:

- `cli` — the command line: subcommands, the package path and extra flags,
  the `aur-push-tag` argument.
- `actions` — each action as a state machine (`flow`), the makepkg work tree
  under the cache directory, `.SRCINFO` parsing and the AUR commit message,
  namcap and validation reports, cleaning rules, log file names.
- `aur_push_gui` — the model of the push and release windows (their
  widgets are not part of this crate): repository detection,
  authentication checks, the workers' plans and how a run proceeds, the
  progress panel, what each window shows and which worker it starts.
- `settings_gui` — the context-menu model: known actions, the default
  layout, loading a saved layout, and the edits of the settings panel.
- `clean_gui`, `gui`, `setup`, `win_state`, `host`, `i18n` — the cleaning
  preview, the desktop front end's arguments, the Nautilus setup, window
  sizes, running tools inside Flatpak, and the desktop language.

`app/` is the command-line program: it reads arguments and the environment,
runs the tools the library asks for, and prints the results.
