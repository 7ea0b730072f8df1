//! Provisioning: the collection that a run works on, and the commands that
//! bring the store to a fresh, empty collection of that shape.

use vstd::prelude::*;

verus! {

/// The length of every embedding vector of the model in use.
pub const EMBEDDING_SIZE: u64 = 384;

/// How the store measures the likeness of two vectors.
#[derive(Clone, Copy, Debug, PartialEq, Eq, Structural)]
pub enum Distance {
    Cosine,
    Euclid,
    Dot,
    Manhattan,
}

/// How the store may shrink the vectors it keeps.
#[derive(Clone, Copy, Debug, PartialEq, Eq, Structural)]
pub enum Quantization {
    /// Vectors are kept as they come.
    Off,
    /// Each component is kept in fewer bits: less memory, some loss of recall.
    Scalar,
}

/// A collection as it is declared to the store.
pub struct CollectionSpec {
    pub name: String,
    /// The length that every vector of the collection must have.
    pub vector_size: u64,
    pub distance: Distance,
    pub quantization: Quantization,
}

/// One request to the store's administration.
pub enum StoreCommand {
    /// Remove the collection of this name with all its points. The store
    /// does not mind the collection being absent.
    DeleteCollection { name: String },
    /// Create an empty collection.
    CreateCollection { spec: CollectionSpec },
}

impl CollectionSpec {
    /// What the store is told of this collection.
    pub open spec fn view(self) -> (Seq<char>, u64, Distance, Quantization) {
        (self.name@, self.vector_size, self.distance, self.quantization)
    }
}

/// The collection of real-estate records: cosine distance over vectors of
/// the model's size, scalar-quantized.
pub fn real_estate_collection() -> (spec: CollectionSpec)
    ensures
        spec.name@ == "real_estate"@,
        spec.vector_size == EMBEDDING_SIZE,
        spec.distance == Distance::Cosine,
        spec.quantization == Quantization::Scalar,
{
    CollectionSpec {
        name: "real_estate".to_owned(),
        vector_size: EMBEDDING_SIZE,
        distance: Distance::Cosine,
        quantization: Quantization::Scalar,
    }
}

/// The commands that provision `spec`, in the order in which they are to be
/// sent: the collection of that name is deleted, then created afresh. Each
/// command is sent only after the one before it has succeeded.
pub fn provision_plan(spec: CollectionSpec) -> (plan: Vec<StoreCommand>)
    ensures
        plan.len() == 2,
        plan[0] matches StoreCommand::DeleteCollection { name } && name@ == spec.name@,
        plan[1] matches StoreCommand::CreateCollection { spec: created } && created@ == spec@,
{
    let mut plan: Vec<StoreCommand> = Vec::new();
    plan.push(StoreCommand::DeleteCollection { name: spec.name.clone() });
    plan.push(StoreCommand::CreateCollection { spec });
    plan
}

} // verus!
