# realioverse_api

A small HTTP service that reports how many accounts hold RIO and how large
its supply is, summed over Algorand, Ethereum and Stellar.

- `src/` is the verified library: the walk over the paginated Algorand
  balance listing and its holder count, the figures read from each chain's
  answer, the request headers, and the sum over the chains.
- `app/` is the program around it: the HTTP server, the requests to the
  indexers and the JSON decoding.
- `tests/` runs the library on concrete values.
