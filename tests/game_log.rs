use presence_client::region::region_shard_from_log;

#[test]
fn last_address_gives_region_and_shard() {
    let log = "start https://glz-eu-1.eu.a.pvp.net/x\n...\nlater https://glz-br-1.na.a.pvp.net/parties\n";
    assert_eq!(region_shard_from_log(log).unwrap(), ("br".to_string(), "na".to_string()));
    assert!(region_shard_from_log("no addresses").is_err());
}
