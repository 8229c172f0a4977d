use std::fmt::Display;
use vstd::prelude::*;
use vstd::string::to_string_from_display_ensures;

verus! {

/// Trait for redis key that is indexed by a static key
pub trait StaticKeyIndexedValue {
    /// Get the key
    fn static_key() -> String;
}

/// One operation on the store, for the host to carry out. The store is
/// addressed by strings and holds bytes.
#[derive(Debug, PartialEq, Eq)]
pub enum StoreCommand {
    /// Fetch the bytes stored at `key`, if there are any.
    Fetch { key: String },
    /// Store `value` at `key`, in place of what was there.
    Store { key: String, value: Vec<u8> },
    /// Remove the entry at `key`.
    Remove { key: String },
}

/// `text` is how `key` displays: the string that addresses its entry in the
/// store.
pub open spec fn addresses<Key: Display>(key: &Key, text: String) -> bool {
    to_string_from_display_ensures::<Key>(key, text)
}

/// Trait for redis key that is indexed by a dynamic key
pub trait KeyValue: Sized {
    /// Key type
    type Key: Display + Send + Sync + Sized;

    /// Value type
    type Value: Send + Sync + Sized;

    /// Get the key
    fn key(&self) -> &Self::Key;

    /// Get the value
    fn value(&self) -> &Self::Value;

    /// Get the value
    fn into_value(self) -> Self::Value;

    /// Create a new key value pair
    fn new(key: Self::Key, value: Self::Value) -> Self;

    /// Removes the entry at `key`: the one command that does so.
    fn delete(&self, key: &Self::Key) -> (command: StoreCommand)
        ensures
            command matches StoreCommand::Remove { key: text } && addresses(key, text),
    {
        StoreCommand::Remove { key: key.to_string() }
    }
}

/// `key` is the key that `pair` hands out.
pub open spec fn key_of<Pair: KeyValue>(pair: &Pair, key: &Pair::Key) -> bool {
    call_ensures(Pair::key, (pair,), key)
}

/// Reading a value failed, in the decoder or in the store. Each variant
/// carries the cause as the one that failed gave it.
#[derive(Debug, PartialEq, Eq)]
pub enum KvReadError<DeError, StoreError> {
    /// The entry was fetched, and its bytes are no value.
    DeserializeError(DeError),
    /// The store could not be asked.
    RedisError(StoreError),
}

/// Reading the value of a pair from the store.
pub trait KeyValueRead: KeyValue {
    /// Asks the store for the entry at `key`.
    fn lookup(key: &Self::Key) -> (command: StoreCommand)
        ensures
            command matches StoreCommand::Fetch { key: text } && addresses(key, text),
    {
        StoreCommand::Fetch { key: key.to_string() }
    }

    /// What reading gives, from what the store answered and, where it held
    /// an entry, from what the value's decoder made of the bytes. An entry
    /// that is not there is no failure, and never one of the decoder: there
    /// is no value then, and no error either.
    fn read<DeError, StoreError>(
        fetched: Result<Option<Result<Self::Value, DeError>>, StoreError>,
    ) -> (value: Result<Option<Self::Value>, KvReadError<DeError, StoreError>>)
        ensures
            value == read_of(fetched),
    {
        match fetched {
            Err(cause) => Err(KvReadError::RedisError(cause)),
            Ok(None) => Ok(None),
            Ok(Some(Ok(decoded))) => Ok(Some(decoded)),
            Ok(Some(Err(e))) => Err(KvReadError::DeserializeError(e)),
        }
    }
}

/// What reading gives: the store's failure, nothing for an entry that is not
/// there, else what the decoder made of the entry.
pub open spec fn read_of<Value, DeError, StoreError>(
    fetched: Result<Option<Result<Value, DeError>>, StoreError>,
) -> Result<Option<Value>, KvReadError<DeError, StoreError>> {
    match fetched {
        Err(cause) => Err(KvReadError::RedisError(cause)),
        Ok(None) => Ok(None),
        Ok(Some(Ok(decoded))) => Ok(Some(decoded)),
        Ok(Some(Err(e))) => Err(KvReadError::DeserializeError(e)),
    }
}

/// Writing a value failed, in the encoder or in the store. Each variant
/// carries the cause as the one that failed gave it.
#[derive(Debug, PartialEq, Eq)]
pub enum KvWriteError<SerError, StoreError> {
    /// The value could not be encoded. Nothing was sent to the store.
    SerializeError(SerError),
    /// The store did not take the entry.
    RedisError(StoreError),
}

/// Writing a pair to the store.
pub trait KeyValueWrite: KeyValue {
    /// Stores the pair's value at the pair's key. `encoded` is what the
    /// value's encoder returned: its bytes are stored as they are, and its
    /// failure is a `SerializeError`, with no command for the store.
    fn write<SerError, StoreError>(&self, encoded: Result<Box<[u8]>, SerError>) -> (command:
        Result<StoreCommand, KvWriteError<SerError, StoreError>>)
        ensures
            match encoded {
                Ok(bytes) => {
                    &&& command matches Ok(StoreCommand::Store { key: text, value })
                    &&& exists|key: &Self::Key| #[trigger] key_of(self, key) && addresses(key, text)
                    &&& value@ == bytes@
                },
                Err(e) => command == Err::<StoreCommand, KvWriteError<SerError, StoreError>>(
                    KvWriteError::SerializeError(e),
                ),
            },
    {
        match encoded {
            Ok(bytes) => {
                let key = self.key();
                assert(key_of(self, key));
                Ok(StoreCommand::Store { key: key.to_string(), value: bytes.into_vec() })
            },
            Err(e) => Err(KvWriteError::SerializeError(e)),
        }
    }

    /// What writing reports once the store has answered the command.
    fn written<SerError, StoreError>(reply: Result<(), StoreError>) -> (done: Result<
        (),
        KvWriteError<SerError, StoreError>,
    >)
        ensures
            done == match reply {
                Ok(_) => Ok::<(), KvWriteError<SerError, StoreError>>(()),
                Err(cause) => Err::<(), KvWriteError<SerError, StoreError>>(
                    KvWriteError::RedisError(cause),
                ),
            },
    {
        match reply {
            Ok(_) => Ok(()),
            Err(cause) => Err(KvWriteError::RedisError(cause)),
        }
    }
}

impl StoreCommand {
    /// What a store holds once it has carried the command out, where it
    /// held `entries` before: a store replaces, a remove forgets, a fetch
    /// changes nothing.
    pub open spec fn effect(self, entries: Map<Seq<char>, Seq<u8>>) -> Map<Seq<char>, Seq<u8>> {
        match self {
            StoreCommand::Fetch { key } => entries,
            StoreCommand::Store { key, value } => entries.insert(key@, value@),
            StoreCommand::Remove { key } => entries.remove(key@),
        }
    }

    /// What a store that holds `entries` answers: to a fetch the bytes at
    /// the key, where it holds any, and nothing else.
    pub open spec fn answer(self, entries: Map<Seq<char>, Seq<u8>>) -> Option<Seq<u8>> {
        match self {
            StoreCommand::Fetch { key } => if entries.dom().contains(key@) {
                Some(entries[key@])
            } else {
                None
            },
            _ => None,
        }
    }
}

/// What the decoder makes of the answer to a fetch, where there is one.
pub open spec fn decoded_answer<Value, DeError>(
    answer: Option<Seq<u8>>,
    decoder: spec_fn(Seq<u8>) -> Result<Value, DeError>,
) -> Option<Result<Value, DeError>> {
    match answer {
        Some(bytes) => Some(decoder(bytes)),
        None => None,
    }
}

/// An entry that the store does not hold reads as no value: as no error of
/// the store, and never as one of the decoder, which is not even asked.
pub proof fn lemma_absent_entry_reads_as_nothing<Value, DeError, StoreError>()
    ensures
        read_of::<Value, DeError, StoreError>(Ok(None)) == Ok::<
            Option<Value>,
            KvReadError<DeError, StoreError>,
        >(None),
{
}

/// Reading after writing gives the value back. On a store that keeps what it
/// is given, a fetch under the text that the entry was stored under is
/// answered with the bytes that were stored; and where the decoder turns
/// those bytes back into the value, reading returns the value.
pub proof fn lemma_write_then_read<Value, DeError, StoreError>(
    entries: Map<Seq<char>, Seq<u8>>,
    value: Value,
    written: StoreCommand,
    asked: StoreCommand,
    decoder: spec_fn(Seq<u8>) -> Result<Value, DeError>,
)
    requires
        written is Store,
        asked is Fetch,
        asked->Fetch_key@ == written->Store_key@,
        decoder(written->Store_value@) == Ok::<Value, DeError>(value),
    ensures
        asked.answer(written.effect(entries)) == Some(written->Store_value@),
        read_of::<Value, DeError, StoreError>(
            Ok(decoded_answer(asked.answer(written.effect(entries)), decoder)),
        ) == Ok::<Option<Value>, KvReadError<DeError, StoreError>>(Some(value)),
{
}

/// Reading after deleting gives nothing. On a store that forgets what it is
/// told to remove, a fetch under the text that was removed is answered with
/// nothing, and reading returns no value and no error: not one of the
/// decoder, whatever the decoder would make of any bytes.
pub proof fn lemma_delete_then_read<Value, DeError, StoreError>(
    entries: Map<Seq<char>, Seq<u8>>,
    removed: StoreCommand,
    asked: StoreCommand,
    decoder: spec_fn(Seq<u8>) -> Result<Value, DeError>,
)
    requires
        removed is Remove,
        asked is Fetch,
        asked->Fetch_key@ == removed->Remove_key@,
    ensures
        asked.answer(removed.effect(entries)) is None,
        read_of::<Value, DeError, StoreError>(
            Ok(decoded_answer(asked.answer(removed.effect(entries)), decoder)),
        ) == Ok::<Option<Value>, KvReadError<DeError, StoreError>>(None),
{
}

} // verus!
