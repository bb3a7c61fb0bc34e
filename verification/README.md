# regx

Registry data as a verified library: what a registry tool decides, computes and
says, separated from what it reads and writes.

* `src/` is the library. Every function in it is verified by Verus against its
  contract; the laws that span several functions are public proof functions
  beside the functions they speak of.
* `tests/` runs the library from outside, with the crates that it calls.
* `app/` is the command-line tool around the library: arguments, files, the
  Windows Shell and the registry calls of the self-check.

Where things are:

* Registry data: `model`, `parser`, `encoding`, `utf16`, `writer`, `state_reader`,
  `doc`, and the laws of reading back in `parser_laws`, `file_laws` and
  `saved_plan_laws`.
* Rules: `policy`, `redirect`, `redirecting`, `guard`, `changing`.
* Changes: `mutation`, `reconcile`, `paths`, `views`, `input`, `preparing`,
  `starting`, `planning`, `saved_plan`, `copy_plan`, and the step machines
  `transaction`, `batch` and `apply`.
* Looking: `search`, `pattern`, `select`, `reading`, `diff`, `source`,
  `inspection`, `audit`, `selfcheck`.
* Shortcuts: `shell`, `shortcut`, `shortcut_manifest`, `shortcut_changes`,
  `shortcut_run`.
* Commands: `args`, `command`.
* Answers: `report`, `parts`, `*_report`, `listing`, `notice`, `question`, `outcome`,
  `exit`.
* Basics: `text`, `number`, `json`, `sha256`, `document`.

What is believed without proof are the contracts of calls into `regex`,
`serde_json` and the standard library. Each such item says so in its doc comment.
