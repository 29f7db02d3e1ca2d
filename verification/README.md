# diamond_market

A market where players offer game items for diamonds, backed by a bank
service that holds their accounts.

- `src/` is the library, verified with Verus: the market's store of items
  (`data`), the bank's users and accounts (`bank`), the decisions behind each
  request (`routes`: product lookups, purchases, the bank's address), the
  concurrent map both keep their contents in (`store`), number formatting and
  messages (`text`), and error answers (`catchers`).
- `app/` is the web service around it: the HTTP routes, the market's file on
  disk, and the requests to the bank service.
- `tests/` runs the library on concrete markets, banks and purchases.

A purchase runs in two steps: `purchase` checks the request, lowers the
stock and books the payment locally; the bank is then asked to transfer the
diamonds, and `complete_purchase` turns its answer into the buyer's result.
