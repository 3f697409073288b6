# stellar_card_receiver

A Soroban contract that forwards USDC and native XLM payments to a treasury and
announces each with the order it pays, verified with Verus.

## How it works

The contract never holds funds. A payment moves them from the payer to the
treasury in one transfer of the asset's token contract; the event that follows
carries the order identifier, the payer and the amount.

The library decides and the host acts. An entrypoint reads the storage of its
invocation and records what shall happen (authorizations, writes, events) in a
journal. Where it needs a token contract it stops and names the call; `resume`
takes the answer. Every host call can end the whole invocation, and its outcome
rests on the ledger, so none is made from verified code.

## Layout

| Path               | Holds                                                      |
| ------------------ | ---------------------------------------------------------- |
| `src/types.rs`     | addresses, storage keys, errors, reasons to abort          |
| `src/event.rs`     | events and their layout as topics and value                |
| `src/storage.rs`   | the contract's storage, slot by slot                       |
| `src/invocation.rs`| an invocation and its journal                              |
| `src/progress.rs`  | token calls and what an entrypoint waits for               |
| `src/model.rs`     | what each entrypoint does, as spec functions               |
| `src/receiver.rs`  | the entrypoints, proved to do that                         |
| `src/laws.rs`      | what holds of the contract as a whole                      |
| `app/`             | the Soroban interface, the ledger and the token calls      |
| `tests/`           | entrypoints on plain storage, and on the Soroban test host |

## Events

| First topic         | Further topics           | Value                                   |
| ------------------- | ------------------------ | --------------------------------------- |
| `init`              | admin                    | treasury, USDC contract, XLM contract   |
| `pay_usdc`          | order identifier, payer  | amount in units of 10^-7 USDC           |
| `pay_xlm`           | order identifier, payer  | amount in stroops                       |
| `paused`            | caller                   | `true`                                  |
| `unpaused`          | admin                    | `false`                                 |
| `upgraded`          | admin                    | hash of the new code                    |
| `admin_transferred` | old admin, new admin     | none                                    |

Each of `init`, `paused`, `unpaused` and `admin_transferred` is a real change:
pausing a paused contract, unpausing an unpaused one and handing control to the
admin who has it publish nothing.
