# iloader

`iloader` installs IPAs on iPhones and iPads from the command line, gives sideloading apps
their pairing file, and manages the development certificates of an Apple ID.

The crate has two parts.

- `src/` is the library: every decision of the tool, written in Verus and proved against its
  contracts. It does no input and output.
- `app/` is the program around it. It talks to usbmuxd, the device, Apple's servers and the
  file system.

## The library

| module | what is in it |
| --- | --- |
| `text`, `numbers` | searching, splitting and trimming text; decimal numbers |
| `error` | failures and the words for them |
| `requests` | the fixed words handed to devices, services and the user |
| `property_list`, `documents` | property lists, and the pairing documents made of them |
| `version` | iOS versions |
| `device` | choosing a device, and what is shown of it |
| `ipa` | where an IPA comes from; the SideStore releases |
| `pairing_apps` | the apps that take a pairing file, and where it goes |
| `auth`, `reports` | accounts, verification codes, certificates, and what is shown of them |
| `jobs` | the commands |

A job is a command, or a part of one, that alternates outside work with decisions. Its `state`
says what has to be done next; `advance` takes what came of it. The functions whose names begin
with `law_` state what holds of whole runs: which steps come before which, what ends in success,
and that every job comes to its end.

What the library takes on trust is what it says of the functions of `plist`, of `idevice` and of
`str::to_lowercase` that it calls; each such statement has a doc comment of its own.
