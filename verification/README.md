# spectre_gtk

A password manager built on the Spectre algorithm, which derives each site's password
from the user's name, secret and the site's name instead of storing it.

- `src/` is the verified library: the algorithm's versions, result types, identicon
  colours and file formats with their numeric codes and names; the model of a user, its
  key and its sites; identicon markup; the messages for user-file errors; and the
  decisions of the password window (entry order, search filter, copy or create, the
  search box's button and label). Its functions carry contracts that are proved, and
  the laws that relate them are public proof functions. Four small functions that call
  the standard library (appending a character, reading the system clock) are trusted
  rather than proved; their documentation says what each one's contract claims.
- `tests/` runs the library on concrete values.
- `app/` is the GTK 4 / libadwaita front end and the bindings to the Spectre C library,
  which derives keys, passwords and identicons and reads and writes user files.
