# pick_merge

A GitHub bot that, when a pull request carries labels `pick-to/<branch>`,
cherry-picks its commits onto each named branch through a new branch, opens a
pull request for them, comments which commits could not be picked, and puts
the merged pull request on the milestone that the branch's version names.

- `src/` is the library, verified with Verus: label matching, branch names,
  comments and request bodies, reading the pull-request number, the milestone
  lookup, and the pick job as a state machine (`branch::PickJob`) whose
  runner performs the git commands and GitHub requests it asks for.
- `app/` is the program around it: environment, files, `git`, HTTP.
- `tests/` runs the library on concrete values.
