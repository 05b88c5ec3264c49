# neptune

The logic of a Neptune node as a Verus library: executable Rust whose behaviour is stated in
contracts and proved.

- `src/` is the library. Every item of it is verified. What it takes from other crates (field
  arithmetic, Tip5, Merkle trees and Merkle mountain ranges from `twenty-first`, channels from
  `tokio`, letter cases from `convert_case`, time zones from `chrono`) stands behind small functions
  whose doc comments say what is claimed of the outside code.
- `app/` is the node around it: tasks, sockets, files, clocks and floating point numbers.
- `tests/` runs the library on concrete values.

Some inputs of the library are computed elsewhere in a node, and are handed to it as plain values:
whether the proof system accepts a block, the answers of the mutator set, what difficulty control asks for,
and the hashes of scripts.

## What is proved

Besides the contract of every function, the library states and proves, among other things:

- the premine and the coinbases of a chain of valid blocks never exceed 42 million coins;
- in such a chain, heights and block MMRs count the predecessors, and proof-of-work accumulates;
- the mutator set update of a valid block leads to the mutator set after it;
- guessers cannot change the validity of a block by choosing its nonce or guesser digest;
- waiting longer never makes the proof-of-work puzzle harder;
- the fork choice rule never goes back and forth between two blocks;
- a decoded block has the contents and the digest of the block that was encoded;
- jobs are run by priority, and first come, first served within a priority;
- a job's completion goes to its own handle, and a job that panics ends cleanly;
- the RPC server is the last thing that is started;
- the search for a nonce tries every nonce before it tries one again;
- the snippet that stores a claim leaves the stack and the memory as it promises.
