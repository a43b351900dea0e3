# erp-example

A small ERP — quotes, orders, invoices, stock, customers, suppliers — built on
the RociaDB Rust SDK (`rociadb-sdk`), with its business rules verified by
Verus.

## Layout

| Part | What it holds |
|---|---|
| `src/` | the verified library: VAT and totals, stock moves, the sales flow from quote to paid invoice, node/edge/key naming, upload framing and SHA-256 checksums, the PDF and CSV writers, cursor walking, error reading |
| `tests/` | tests of the library on concrete values |
| `app/` | the program: builds the client, talks to the server, prints. It hands the library plain values and sends what the library prepared |

The library has two halves that follow the same rules: an English one
(`erp`, `model`, `documents`, `files`, `graph`) and a French one (`modele`,
`catalogue`, `ventes`, `tiers`, `graphe`, `pieces`, `schema`, `contexte`,
`erreur`, `pagination`, `nettoyage`, `admin`, `scenario`, `jeu_donnees`).

Money is stored in cents and VAT rates in basis points. VAT is rounded on
each line and then summed, so no amount depends on the order of the lines.

## What is proved

Among the contracts and the public proof functions:

- totals are the exact sums of the lines, and sums of lines are additive;
  VAT is the amount rounded to the nearest cent, symmetric for credit notes;
- a stock move never leaves a negative stock, is refused exactly when it
  would, and an inbound move followed by the same outbound one restores it;
- from quote to order to invoice, lines and totals travel unchanged;
- node and edge ids are injective in their parts; a run's key prefix holds
  no `:`, so two runs with different prefixes share no idempotency key, and
  within a run two names give two keys;
- the two writes of a stock move come stock first, record second, and a
  declined quote loses its document before its edges;
- an upload's messages carry the metadata on the first one, never exceed
  1 MiB, and put back together give the content exactly;
- escaping text for a PDF string keeps exactly its ASCII characters, as a
  PDF reader reads them back.

The outside calls that the library makes itself (SHA-256, the system clock,
`chrono`'s date formatting, `String::push`, `Duration`'s accessors) stand
behind small trusted wrappers whose contracts say only what their source or
documentation promises. A clock set before 1970 gives no instant, not a
panic.

## Running

The program in `app/` needs a RociaDB server (`ROCIA_HOST`, default
`http://127.0.0.1:50051`; `ROCIA_NO_AUTH=1` for a local one). The SDK's
build script compiles its `.proto` files and needs `protoc`.
