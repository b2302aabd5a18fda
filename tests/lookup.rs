use etf_trace::lookup::{find_component, ComponentNotFound, PartId};

const ARM_TMC: PartId = PartId { jep106_cc: 4, jep106_id: 0x3B, part: 0x961 };
const ARM_ITM: PartId = PartId { jep106_cc: 4, jep106_id: 0x3B, part: 0x001 };
const OTHER_TMC: PartId = PartId { jep106_cc: 0, jep106_id: 0x20, part: 0x961 };

#[test]
fn finds_first_matching_component() {
    let ids = vec![ARM_ITM, OTHER_TMC, ARM_TMC, ARM_TMC];
    assert_eq!(find_component(&ids, ARM_TMC), Ok(2));
    assert_eq!(find_component(&ids, ARM_ITM), Ok(0));
}

#[test]
fn missing_component_is_an_error() {
    let ids = vec![ARM_ITM, OTHER_TMC];
    assert_eq!(find_component(&ids, ARM_TMC), Err(ComponentNotFound));
    assert_eq!(find_component(&vec![], ARM_TMC), Err(ComponentNotFound));
}
