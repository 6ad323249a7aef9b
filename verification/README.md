# driver_update

The verified core of a mechanism by which a database client downloads, verifies,
caches and loads driver binaries that its server distributes.

`src/` is the library. Every function in it is verified with Verus against its
contract, except for the trusted items in `src/crypto.rs` and `src/text.rs`, which
call `sha2`, `hex`, `ed25519-dalek`, `rand` and the standard library.

| module        | what it holds                                                     |
|---------------|-------------------------------------------------------------------|
| `update`      | policy and status of an update                                    |
| `abi`         | the interface between host and driver, in plain values            |
| `driver`      | what this project's own driver returns                            |
| `loader`      | which driver the host loads, and what it reports of one it refuses |
| `signature`   | whether a binary was signed by a key of a keyring                 |
| `cache`       | where a binary is cached, and what a lookup gives back            |
| `path`        | paths, put together from what the host program knows              |
| `sign_driver` | the signing tool                                                  |
| `crypto`      | hashes, signatures and keys                                       |
| `text`        | decimal and hexadecimal numbers, bytes as text                    |

Public proof functions whose names begin with `law_` state what holds of the
library as a whole: for example that a binary that was saved under its hash is
found again, or that no driver is loaded whose interface is not the host's.

`app/` is the program around the library: the command line of the signing tool,
the file system, shared libraries and the C interface. The public key of driver
releases is embedded when it is built, from the environment variable
`SCYLLA_DRIVER_SIGNING_KEY`, which holds the key in hexadecimal.
