# Delivery escrow

A two-sided escrow for deliveries, written in Verus. A customer escrows a
delivery fee and a rider escrows a performance bond. The pot is released when the
customer confirms, when the rider claims after a silent confirmation window, when
the administrator rules on a dispute, or when both parties cancel before delivery.

`src/` is the verified library:

| Module       | What it holds                                                         |
|--------------|-----------------------------------------------------------------------|
| `types`      | orders, statuses, allocations, refusals, storage keys                 |
| `rules`      | storage lifetimes, state guards, how a pot is divided                 |
| `index`      | the lists of order ids, kept in vectors of the Soroban SDK            |
| `actions`    | the host operations that a call asks for, and the events              |
| `env`        | the ledger as the contract sees it, storage helpers, payments         |
| `model`      | what each entry point answers, and what it makes of the ledger        |
| `contract`   | the entry points                                                      |
| `history`    | sequences of calls, and what is kept by every call                    |
| `laws`       | proofs about every call and every sequence of calls                   |
| `guarantees` | proofs of what the parties can rely on                                |

The only facts taken on trust are those about the SDK's vector, in `index`.

`app/` is the Soroban contract around the library. Each entry point loads the
ledger entries that the call reads into an `EscrowEnv`, makes the call, and
performs the operations that it asked for, in order. The host aborts the whole
invocation where an authorisation is missing or the token refuses a transfer.

`tests/` runs the library on concrete values, with a small token ledger that
performs the transfers.
