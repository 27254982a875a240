# mac_usb

The state and the decisions behind USB devices on macOS, written and proved in Verus.

- `src/` is the verified library. It opens devices (`open`), captures them from kernel drivers and
  releases them (`capture`, `detach`, `device`), claims interfaces (`claim`, `interface`), and keeps
  the transfers of endpoints (`endpoint`, `transfer`) and of the control pipe (`control`). It makes
  no call into the system: each operation is told what the calls that it asks for returned.
- `app/` makes those calls, under the locks that the operations need.
- `tests/` runs the library on scripted replies.

The functions named `law_...` state what holds of the library as a whole.
