# offline_election

Reads the multi-block election state of a Substrate chain and simulates its elections.

`src/` is the library, verified with Verus. It talks to no node: it says which storage entries and
constants to ask for, and what the replies mean.

| module | what it holds |
| --- | --- |
| `decode_error` | why stored bytes do not read |
| `scale` | the SCALE encoding of the stored values |
| `storage` | the keys of the storage entries that are read |
| `staking` | what the staking pallet stores |
| `multi_block_state_client` | what the election stores, and the reading of the replies |
| `block_details` | the state of the election at a block, gathered request by request |
| `snapshot` | the voters and targets of a round, gathered page by page |
| `miner_config` | the constants and settings of an election, and its solver |
| `cli` | what the command line asks for |

`app/` is the program around it: the command line, the node client, and the traits of the election
pallets. `tests/` runs the library on concrete values.
