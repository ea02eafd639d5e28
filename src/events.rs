use vstd::prelude::*;

verus! {

/// Publishes favorite changes on a message topic. Delivery itself happens
/// outside the library; this value names where events go.
#[derive(Clone, Debug)]
pub struct KafkaFavoriteGameEventPublisher {
    topic: String,
}

impl KafkaFavoriteGameEventPublisher {
    pub closed spec fn topic_view(&self) -> Seq<char> {
        self.topic@
    }

    /// A publisher for `topic`. The broker address is accepted for the
    /// transport's sake and not kept.
    pub fn new(_bootstrap_servers: &str, topic: &str) -> (r: Result<Self, String>)
        ensures
            r matches Ok(p) && p.topic_view() == topic@,
    {
        Ok(KafkaFavoriteGameEventPublisher { topic: String::from_str(topic) })
    }

    /// The topic that events go to.
    pub fn topic(&self) -> (r: &str)
        ensures
            r@ == self.topic_view(),
    {
        self.topic.as_str()
    }
}

} // verus!
