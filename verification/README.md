# termhost

Windows default terminal support, with the decisions verified by
[Verus](https://github.com/verus-lang/verus).

Windows lets the user choose the terminal that console applications open in.
This library makes WezTerm that terminal (`enable`), gives the choice back
(`disable`), and takes over the console sessions that Windows then hands to it.

* `src/` is the verified library. An operation there never touches the system:
  it asks for one thing at a time and is resumed with the answer. Every step has
  an exact contract, and the `laws` modules prove what whole operations do, among
  them:
  * `disable` undoes `enable`, and never overwrites a choice made elsewhere;
  * nothing is removed that does not carry the ownership marker;
  * a console host of someone else is left alone;
  * a handoff leaks no handle, and is recorded only once its pipes were passed
    out;
  * every command ends, whatever the system answers.
* `app/` carries out what the library asks for: the registry, files, handles, COM
  and the multiplexer.
* `tests/` runs the library against a registry and a handle table in memory.
